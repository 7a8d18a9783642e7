//! Markup-declaration-open, comment and bogus-comment states.  A comment
//! closes only on the exact sequence `-->`; stray dashes are re-appended
//! literally, and the degenerate `--!>` closer is a parse error.

use vstd::prelude::*;
use crate::state::State;
use crate::token::ParseError;
use crate::model::M;
use crate::model::matches_at;
use crate::model::matches_at_ci;
use crate::tokenizer::Tokenizer;

verus! {

broadcast use crate::model::lemma_chars_tokens_facts;

/// After `<!`: recognize `--` (comment), `DOCTYPE` (case-insensitively) and
/// `[CDATA[` (in foreign content only); anything else is an incorrectly
/// opened comment recovered as a bogus comment.
pub open spec fn sp_markup_declaration_open(m: M) -> M {
    if m.at_eof() {
        m.err(ParseError::IncorrectlyOpenedComment).start_comment(Seq::empty()).to_state(
            State::BogusComment,
        )
    } else if matches_at(m, 1, seq!['-', '-']) {
        m.start_comment(Seq::empty()).to_state(State::CommentStart).advance(3)
    } else if matches_at_ci(m, 1, seq!['d', 'o', 'c', 't', 'y', 'p', 'e']) {
        m.to_state(State::DOCTYPE).advance(8)
    } else if matches_at(m, 1, seq!['[', 'C', 'D', 'A', 'T', 'A', '[']) {
        if m.allow_cdata {
            m.to_state(State::CDATASection).advance(8)
        } else {
            m.err(ParseError::CdataInHtmlContent).start_comment(
                seq!['[', 'C', 'D', 'A', 'T', 'A', '['],
            ).to_state(State::BogusComment).advance(8)
        }
    } else {
        m.err(ParseError::IncorrectlyOpenedComment).start_comment(Seq::empty()).to_state(
            State::BogusComment,
        ).consume()
    }
}

pub open spec fn sp_comment_start(m: M) -> M {
    if m.at_eof() {
        m.to_state(State::Comment)
    } else {
        let c = m.cur();
        if c == '-' {
            m.to_state(State::CommentStartDash).consume()
        } else if c == '>' {
            m.err(ParseError::AbruptClosingOfEmptyComment).emit_comment().to_state(
                State::Data,
            ).consume()
        } else {
            m.to_state(State::Comment)
        }
    }
}

pub open spec fn sp_comment_start_dash(m: M) -> M {
    if m.at_eof() {
        m.err(ParseError::EofInComment).emit_comment().emit_eof()
    } else {
        let c = m.cur();
        if c == '-' {
            m.to_state(State::CommentEnd).consume()
        } else if c == '>' {
            m.err(ParseError::AbruptClosingOfEmptyComment).emit_comment().to_state(
                State::Data,
            ).consume()
        } else {
            m.append_comment('-').to_state(State::Comment)
        }
    }
}

pub open spec fn sp_comment(m: M) -> M {
    if m.at_eof() {
        m.err(ParseError::EofInComment).emit_comment().emit_eof()
    } else {
        let c = m.cur();
        if c == '<' {
            m.append_comment(c).to_state(State::CommentLessThanSign).consume()
        } else if c == '-' {
            m.to_state(State::CommentEndDash).consume()
        } else if c == '\0' {
            m.err(ParseError::UnexpectedNullCharacter).append_comment('\u{fffd}').consume()
        } else {
            m.append_comment(c).consume()
        }
    }
}

pub open spec fn sp_comment_less_than_sign(m: M) -> M {
    if m.at_eof() {
        m.to_state(State::Comment)
    } else {
        let c = m.cur();
        if c == '!' {
            m.append_comment(c).to_state(State::CommentLessThanSignBang).consume()
        } else if c == '<' {
            m.append_comment(c).consume()
        } else {
            m.to_state(State::Comment)
        }
    }
}

pub open spec fn sp_comment_less_than_sign_bang(m: M) -> M {
    if !m.at_eof() && m.cur() == '-' {
        m.to_state(State::CommentLessThanSignBangDash).consume()
    } else {
        m.to_state(State::Comment)
    }
}

pub open spec fn sp_comment_less_than_sign_bang_dash(m: M) -> M {
    if !m.at_eof() && m.cur() == '-' {
        m.to_state(State::CommentLessThanSignBangDashDash).consume()
    } else {
        m.to_state(State::CommentEndDash)
    }
}

pub open spec fn sp_comment_less_than_sign_bang_dash_dash(m: M) -> M {
    if m.at_eof() || m.cur() == '>' {
        m.to_state(State::CommentEnd)
    } else {
        m.err(ParseError::NestedComment).to_state(State::CommentEnd)
    }
}

pub open spec fn sp_comment_end_dash(m: M) -> M {
    if m.at_eof() {
        m.err(ParseError::EofInComment).emit_comment().emit_eof()
    } else {
        let c = m.cur();
        if c == '-' {
            m.to_state(State::CommentEnd).consume()
        } else {
            m.append_comment('-').to_state(State::Comment)
        }
    }
}

pub open spec fn sp_comment_end(m: M) -> M {
    if m.at_eof() {
        m.err(ParseError::EofInComment).emit_comment().emit_eof()
    } else {
        let c = m.cur();
        if c == '>' {
            m.emit_comment().to_state(State::Data).consume()
        } else if c == '!' {
            m.to_state(State::CommentEndBang).consume()
        } else if c == '-' {
            m.append_comment('-').consume()
        } else {
            m.append_comment('-').append_comment('-').to_state(State::Comment)
        }
    }
}

pub open spec fn sp_comment_end_bang(m: M) -> M {
    if m.at_eof() {
        m.err(ParseError::EofInComment).emit_comment().emit_eof()
    } else {
        let c = m.cur();
        if c == '-' {
            m.append_comment('-').append_comment('-').append_comment('!').to_state(
                State::CommentEndDash,
            ).consume()
        } else if c == '>' {
            m.err(ParseError::IncorrectlyClosedComment).emit_comment().to_state(
                State::Data,
            ).consume()
        } else {
            m.append_comment('-').append_comment('-').append_comment('!').to_state(
                State::Comment,
            )
        }
    }
}

pub open spec fn sp_bogus_comment(m: M) -> M {
    if m.at_eof() {
        m.emit_comment().emit_eof()
    } else {
        let c = m.cur();
        if c == '>' {
            m.emit_comment().to_state(State::Data).consume()
        } else if c == '\0' {
            m.err(ParseError::UnexpectedNullCharacter).append_comment('\u{fffd}').consume()
        } else {
            m.append_comment(c).consume()
        }
    }
}

impl Tokenizer {
    #[verifier::rlimit(100)]
    #[verifier::spinoff_prover]
    pub(crate) fn st_markup_declaration_open(&mut self)
        ensures
            final(self)@ == sp_markup_declaration_open(old(self)@),
            old(self)@.inv() && !old(self)@.done && old(self)@.state == State::MarkupDeclarationOpen
                ==> crate::machine::step_progress(
                old(self)@,
                final(self)@,
            ),
            !old(self)@.done ==> crate::machine::eof_step_ok(old(self)@, final(self)@),
    {
        if self.at_end() {
            self.err(ParseError::IncorrectlyOpenedComment);
            self.start_comment_empty();
            self.switch_to_without_consuming(State::BogusComment);
            return ;
        }
        let dashes: Vec<char> = two_dashes();
        let doctype_word: Vec<char> = doctype_chars();
        let cdata_word: Vec<char> = cdata_chars();
        if self.lookahead(1, &dashes) {
            self.start_comment_empty();
            self.switch_to_without_consuming(State::CommentStart);
            self.advance_by(3);
        } else if self.lookahead_ci(1, &doctype_word) {
            self.switch_to_without_consuming(State::DOCTYPE);
            self.advance_by(8);
        } else if self.lookahead(1, &cdata_word) {
            if self.cdata_allowed() {
                self.switch_to_without_consuming(State::CDATASection);
                self.advance_by(8);
            } else {
                self.err(ParseError::CdataInHtmlContent);
                self.start_comment_empty();
                let n = cdata_word.len();
                let mut i: usize = 0;
                proof {
                    assert(cdata_word@.take(0) =~= Seq::<char>::empty());
                }
                while i < n
                    invariant
                        0 <= i <= n,
                        n == cdata_word@.len(),
                        self@ == old(self)@.err(ParseError::CdataInHtmlContent).start_comment(
                            cdata_word@.take(i as int),
                        ),
                    decreases n - i,
                {
                    self.append_comment(cdata_word[i]);
                    proof {
                        assert(self@.comment =~= cdata_word@.take(i + 1));
                    }
                    i = i + 1;
                }
                proof {
                    assert(cdata_word@.take(n as int) =~= cdata_word@);
                }
                self.switch_to_without_consuming(State::BogusComment);
                self.advance_by(8);
            }
        } else {
            self.err(ParseError::IncorrectlyOpenedComment);
            self.start_comment_empty();
            self.switch_to_without_consuming(State::BogusComment);
            self.consume();
        }
    }

    pub(crate) fn st_comment_start(&mut self)
        ensures
            final(self)@ == sp_comment_start(old(self)@),
            old(self)@.inv() && !old(self)@.done && old(self)@.state == State::CommentStart
                ==> crate::machine::step_progress(
                old(self)@,
                final(self)@,
            ),
            !old(self)@.done ==> crate::machine::eof_step_ok(old(self)@, final(self)@),
    {
        if self.at_end() {
            self.switch_to_without_consuming(State::Comment);
            return ;
        }
        let c = self.current_char();
        if c == '-' {
            self.switch_to(State::CommentStartDash);
        } else if c == '>' {
            self.err(ParseError::AbruptClosingOfEmptyComment);
            self.emit_comment();
            self.switch_to(State::Data);
        } else {
            self.switch_to_without_consuming(State::Comment);
        }
    }

    pub(crate) fn st_comment_start_dash(&mut self)
        ensures
            final(self)@ == sp_comment_start_dash(old(self)@),
            old(self)@.inv() && !old(self)@.done && old(self)@.state == State::CommentStartDash
                ==> crate::machine::step_progress(
                old(self)@,
                final(self)@,
            ),
            !old(self)@.done ==> crate::machine::eof_step_ok(old(self)@, final(self)@),
    {
        if self.at_end() {
            self.err(ParseError::EofInComment);
            self.emit_comment();
            self.emit_eof();
            return ;
        }
        let c = self.current_char();
        if c == '-' {
            self.switch_to(State::CommentEnd);
        } else if c == '>' {
            self.err(ParseError::AbruptClosingOfEmptyComment);
            self.emit_comment();
            self.switch_to(State::Data);
        } else {
            self.append_comment('-');
            self.switch_to_without_consuming(State::Comment);
        }
    }

    pub(crate) fn st_comment(&mut self)
        ensures
            final(self)@ == sp_comment(old(self)@),
            old(self)@.inv() && !old(self)@.done && old(self)@.state == State::Comment
                ==> crate::machine::step_progress(
                old(self)@,
                final(self)@,
            ),
            !old(self)@.done ==> crate::machine::eof_step_ok(old(self)@, final(self)@),
    {
        if self.at_end() {
            self.err(ParseError::EofInComment);
            self.emit_comment();
            self.emit_eof();
            return ;
        }
        let c = self.current_char();
        if c == '<' {
            self.append_comment(c);
            self.switch_to(State::CommentLessThanSign);
        } else if c == '-' {
            self.switch_to(State::CommentEndDash);
        } else if c == '\0' {
            self.err(ParseError::UnexpectedNullCharacter);
            self.append_comment('\u{fffd}');
            self.consume();
        } else {
            self.append_comment(c);
            self.consume();
        }
    }

    pub(crate) fn st_comment_less_than_sign(&mut self)
        ensures
            final(self)@ == sp_comment_less_than_sign(old(self)@),
            old(self)@.inv() && !old(self)@.done && old(self)@.state == State::CommentLessThanSign
                ==> crate::machine::step_progress(
                old(self)@,
                final(self)@,
            ),
            !old(self)@.done ==> crate::machine::eof_step_ok(old(self)@, final(self)@),
    {
        if self.at_end() {
            self.switch_to_without_consuming(State::Comment);
            return ;
        }
        let c = self.current_char();
        if c == '!' {
            self.append_comment(c);
            self.switch_to(State::CommentLessThanSignBang);
        } else if c == '<' {
            self.append_comment(c);
            self.consume();
        } else {
            self.switch_to_without_consuming(State::Comment);
        }
    }

    pub(crate) fn st_comment_less_than_sign_bang(&mut self)
        ensures
            final(self)@ == sp_comment_less_than_sign_bang(old(self)@),
            old(self)@.inv() && !old(self)@.done && old(self)@.state == State::CommentLessThanSignBang
                ==> crate::machine::step_progress(
                old(self)@,
                final(self)@,
            ),
            !old(self)@.done ==> crate::machine::eof_step_ok(old(self)@, final(self)@),
    {
        if !self.at_end() && self.current_char() == '-' {
            self.switch_to(State::CommentLessThanSignBangDash);
        } else {
            self.switch_to_without_consuming(State::Comment);
        }
    }

    pub(crate) fn st_comment_less_than_sign_bang_dash(&mut self)
        ensures
            final(self)@ == sp_comment_less_than_sign_bang_dash(old(self)@),
            old(self)@.inv() && !old(self)@.done && old(self)@.state == State::CommentLessThanSignBangDash
                ==> crate::machine::step_progress(
                old(self)@,
                final(self)@,
            ),
            !old(self)@.done ==> crate::machine::eof_step_ok(old(self)@, final(self)@),
    {
        if !self.at_end() && self.current_char() == '-' {
            self.switch_to(State::CommentLessThanSignBangDashDash);
        } else {
            self.switch_to_without_consuming(State::CommentEndDash);
        }
    }

    pub(crate) fn st_comment_less_than_sign_bang_dash_dash(&mut self)
        ensures
            final(self)@ == sp_comment_less_than_sign_bang_dash_dash(old(self)@),
            old(self)@.inv() && !old(self)@.done && old(self)@.state == State::CommentLessThanSignBangDashDash
                ==> crate::machine::step_progress(
                old(self)@,
                final(self)@,
            ),
            !old(self)@.done ==> crate::machine::eof_step_ok(old(self)@, final(self)@),
    {
        if self.at_end() || self.current_char() == '>' {
            self.switch_to_without_consuming(State::CommentEnd);
        } else {
            self.err(ParseError::NestedComment);
            self.switch_to_without_consuming(State::CommentEnd);
        }
    }

    pub(crate) fn st_comment_end_dash(&mut self)
        ensures
            final(self)@ == sp_comment_end_dash(old(self)@),
            old(self)@.inv() && !old(self)@.done && old(self)@.state == State::CommentEndDash
                ==> crate::machine::step_progress(
                old(self)@,
                final(self)@,
            ),
            !old(self)@.done ==> crate::machine::eof_step_ok(old(self)@, final(self)@),
    {
        if self.at_end() {
            self.err(ParseError::EofInComment);
            self.emit_comment();
            self.emit_eof();
            return ;
        }
        let c = self.current_char();
        if c == '-' {
            self.switch_to(State::CommentEnd);
        } else {
            self.append_comment('-');
            self.switch_to_without_consuming(State::Comment);
        }
    }

    pub(crate) fn st_comment_end(&mut self)
        ensures
            final(self)@ == sp_comment_end(old(self)@),
            old(self)@.inv() && !old(self)@.done && old(self)@.state == State::CommentEnd
                ==> crate::machine::step_progress(
                old(self)@,
                final(self)@,
            ),
            !old(self)@.done ==> crate::machine::eof_step_ok(old(self)@, final(self)@),
    {
        if self.at_end() {
            self.err(ParseError::EofInComment);
            self.emit_comment();
            self.emit_eof();
            return ;
        }
        let c = self.current_char();
        if c == '>' {
            self.emit_comment();
            self.switch_to(State::Data);
        } else if c == '!' {
            self.switch_to(State::CommentEndBang);
        } else if c == '-' {
            self.append_comment('-');
            self.consume();
        } else {
            self.append_comment('-');
            self.append_comment('-');
            self.switch_to_without_consuming(State::Comment);
        }
    }

    pub(crate) fn st_comment_end_bang(&mut self)
        ensures
            final(self)@ == sp_comment_end_bang(old(self)@),
            old(self)@.inv() && !old(self)@.done && old(self)@.state == State::CommentEndBang
                ==> crate::machine::step_progress(
                old(self)@,
                final(self)@,
            ),
            !old(self)@.done ==> crate::machine::eof_step_ok(old(self)@, final(self)@),
    {
        if self.at_end() {
            self.err(ParseError::EofInComment);
            self.emit_comment();
            self.emit_eof();
            return ;
        }
        let c = self.current_char();
        if c == '-' {
            self.append_comment('-');
            self.append_comment('-');
            self.append_comment('!');
            self.switch_to(State::CommentEndDash);
        } else if c == '>' {
            self.err(ParseError::IncorrectlyClosedComment);
            self.emit_comment();
            self.switch_to(State::Data);
        } else {
            self.append_comment('-');
            self.append_comment('-');
            self.append_comment('!');
            self.switch_to_without_consuming(State::Comment);
        }
    }

    pub(crate) fn st_bogus_comment(&mut self)
        ensures
            final(self)@ == sp_bogus_comment(old(self)@),
            old(self)@.inv() && !old(self)@.done && old(self)@.state == State::BogusComment
                ==> crate::machine::step_progress(
                old(self)@,
                final(self)@,
            ),
            !old(self)@.done ==> crate::machine::eof_step_ok(old(self)@, final(self)@),
    {
        if self.at_end() {
            self.emit_comment();
            self.emit_eof();
            return ;
        }
        let c = self.current_char();
        if c == '>' {
            self.emit_comment();
            self.switch_to(State::Data);
        } else if c == '\0' {
            self.err(ParseError::UnexpectedNullCharacter);
            self.append_comment('\u{fffd}');
            self.consume();
        } else {
            self.append_comment(c);
            self.consume();
        }
    }
}

/// The two dashes that open a comment after `<!`.
pub(crate) fn two_dashes() -> (v: Vec<char>)
    ensures
        v@ == seq!['-', '-'],
{
    let mut v: Vec<char> = Vec::new();
    v.push('-');
    v.push('-');
    proof {
        assert(v@ =~= seq!['-', '-']);
    }
    v
}

/// The word `doctype`, for the case-insensitive lookahead after `<!`.
pub(crate) fn doctype_chars() -> (v: Vec<char>)
    ensures
        v@ == seq!['d', 'o', 'c', 't', 'y', 'p', 'e'],
{
    let mut v: Vec<char> = Vec::new();
    v.push('d');
    v.push('o');
    v.push('c');
    v.push('t');
    v.push('y');
    v.push('p');
    v.push('e');
    proof {
        assert(v@ =~= seq!['d', 'o', 'c', 't', 'y', 'p', 'e']);
    }
    v
}

/// The opener `[CDATA[`, for the lookahead after `<!`.
pub(crate) fn cdata_chars() -> (v: Vec<char>)
    ensures
        v@ == seq!['[', 'C', 'D', 'A', 'T', 'A', '['],
{
    let mut v: Vec<char> = Vec::new();
    v.push('[');
    v.push('C');
    v.push('D');
    v.push('A');
    v.push('T');
    v.push('A');
    v.push('[');
    proof {
        assert(v@ =~= seq!['[', 'C', 'D', 'A', 'T', 'A', '[']);
    }
    v
}

} // verus!
