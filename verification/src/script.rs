//! ScriptData states: tentative end tags, and the escape and double-escape
//! families that let `<script>` content containing comment-like `<!--` /
//! `-->` markers and nested `<script>` text survive without being parsed as
//! markup.  These states only emit characters; no comment token is built.

use vstd::prelude::*;
use crate::state::State;
use crate::token::ParseError;
use crate::model::M;
use crate::model::is_ws;
use crate::model::is_alpha;
use crate::model::to_lower;
use crate::tokenizer::Tokenizer;
use crate::util;

verus! {

broadcast use crate::model::lemma_chars_tokens_facts;

/// The buffered name spells `script`.
pub open spec fn buffer_is_script(m: M) -> bool {
    m.buffer == seq!['s', 'c', 'r', 'i', 'p', 't']
}

pub open spec fn sp_script_data_less_than_sign(m: M) -> M {
    if !m.at_eof() && m.cur() == '/' {
        m.buffer_reset(Seq::empty()).to_state(State::ScriptDataEndTagOpen).consume()
    } else if !m.at_eof() && m.cur() == '!' {
        m.emit_char('<').emit_char('!').to_state(State::ScriptDataEscapeStart).consume()
    } else {
        m.emit_char('<').to_state(State::ScriptData)
    }
}

pub open spec fn sp_script_data_escape_start(m: M) -> M {
    if !m.at_eof() && m.cur() == '-' {
        m.emit_char('-').to_state(State::ScriptDataEscapeStartDash).consume()
    } else {
        m.to_state(State::ScriptData)
    }
}

pub open spec fn sp_script_data_escape_start_dash(m: M) -> M {
    if !m.at_eof() && m.cur() == '-' {
        m.emit_char('-').to_state(State::ScriptDataEscapedDashDash).consume()
    } else {
        m.to_state(State::ScriptData)
    }
}

pub open spec fn sp_script_data_escaped(m: M) -> M {
    if m.at_eof() {
        m.err(ParseError::EofInScriptHtmlCommentLikeText).emit_eof()
    } else {
        let c = m.cur();
        if c == '-' {
            m.emit_char('-').to_state(State::ScriptDataEscapedDash).consume()
        } else if c == '<' {
            m.to_state(State::ScriptDataEscapedLessThanSign).consume()
        } else if c == '\0' {
            m.err(ParseError::UnexpectedNullCharacter).emit_char('\u{fffd}').consume()
        } else {
            m.emit_char(c).consume()
        }
    }
}

pub open spec fn sp_script_data_escaped_dash(m: M) -> M {
    if m.at_eof() {
        m.err(ParseError::EofInScriptHtmlCommentLikeText).emit_eof()
    } else {
        let c = m.cur();
        if c == '-' {
            m.emit_char('-').to_state(State::ScriptDataEscapedDashDash).consume()
        } else if c == '<' {
            m.to_state(State::ScriptDataEscapedLessThanSign).consume()
        } else if c == '\0' {
            m.err(ParseError::UnexpectedNullCharacter).emit_char('\u{fffd}').to_state(
                State::ScriptDataEscaped,
            ).consume()
        } else {
            m.emit_char(c).to_state(State::ScriptDataEscaped).consume()
        }
    }
}

pub open spec fn sp_script_data_escaped_dash_dash(m: M) -> M {
    if m.at_eof() {
        m.err(ParseError::EofInScriptHtmlCommentLikeText).emit_eof()
    } else {
        let c = m.cur();
        if c == '-' {
            m.emit_char('-').consume()
        } else if c == '<' {
            m.to_state(State::ScriptDataEscapedLessThanSign).consume()
        } else if c == '>' {
            m.emit_char('>').to_state(State::ScriptData).consume()
        } else if c == '\0' {
            m.err(ParseError::UnexpectedNullCharacter).emit_char('\u{fffd}').to_state(
                State::ScriptDataEscaped,
            ).consume()
        } else {
            m.emit_char(c).to_state(State::ScriptDataEscaped).consume()
        }
    }
}

pub open spec fn sp_script_data_escaped_less_than_sign(m: M) -> M {
    if !m.at_eof() && m.cur() == '/' {
        m.buffer_reset(Seq::empty()).to_state(State::ScriptDataEscapedEndTagOpen).consume()
    } else if !m.at_eof() && is_alpha(m.cur()) {
        m.buffer_reset(Seq::empty()).emit_char('<').to_state(State::ScriptDataDoubleEscapeStart)
    } else {
        m.emit_char('<').to_state(State::ScriptDataEscaped)
    }
}

pub open spec fn sp_script_data_escaped_end_tag_open(m: M) -> M {
    if !m.at_eof() && is_alpha(m.cur()) {
        m.start_end_tag().to_state(State::ScriptDataEscapedEndTagName)
    } else {
        m.emit_char('<').emit_char('/').to_state(State::ScriptDataEscaped)
    }
}

/// Double-escape-start and double-escape-end share one shape: buffer letters
/// and decide between the two escape levels when a terminator arrives.
pub open spec fn sp_script_data_double_escape_decide(m: M, yes: State, no: State, back: State,
) -> M {
    if !m.at_eof() && (is_ws(m.cur()) || m.cur() == '/' || m.cur() == '>') {
        if buffer_is_script(m) {
            m.emit_char(m.cur()).to_state(yes).consume()
        } else {
            m.emit_char(m.cur()).to_state(no).consume()
        }
    } else if !m.at_eof() && is_alpha(m.cur()) {
        m.buffer_push(to_lower(m.cur())).emit_char(m.cur()).consume()
    } else {
        m.to_state(back)
    }
}

pub open spec fn sp_script_data_double_escaped(m: M) -> M {
    if m.at_eof() {
        m.err(ParseError::EofInScriptHtmlCommentLikeText).emit_eof()
    } else {
        let c = m.cur();
        if c == '-' {
            m.emit_char('-').to_state(State::ScriptDataDoubleEscapedDash).consume()
        } else if c == '<' {
            m.emit_char('<').to_state(State::ScriptDataDoubleEscapedLessThanSign).consume()
        } else if c == '\0' {
            m.err(ParseError::UnexpectedNullCharacter).emit_char('\u{fffd}').consume()
        } else {
            m.emit_char(c).consume()
        }
    }
}

pub open spec fn sp_script_data_double_escaped_dash(m: M) -> M {
    if m.at_eof() {
        m.err(ParseError::EofInScriptHtmlCommentLikeText).emit_eof()
    } else {
        let c = m.cur();
        if c == '-' {
            m.emit_char('-').to_state(State::ScriptDataDoubleEscapedDashDash).consume()
        } else if c == '<' {
            m.emit_char('<').to_state(State::ScriptDataDoubleEscapedLessThanSign).consume()
        } else if c == '\0' {
            m.err(ParseError::UnexpectedNullCharacter).emit_char('\u{fffd}').to_state(
                State::ScriptDataDoubleEscaped,
            ).consume()
        } else {
            m.emit_char(c).to_state(State::ScriptDataDoubleEscaped).consume()
        }
    }
}

pub open spec fn sp_script_data_double_escaped_dash_dash(m: M) -> M {
    if m.at_eof() {
        m.err(ParseError::EofInScriptHtmlCommentLikeText).emit_eof()
    } else {
        let c = m.cur();
        if c == '-' {
            m.emit_char('-').consume()
        } else if c == '<' {
            m.emit_char('<').to_state(State::ScriptDataDoubleEscapedLessThanSign).consume()
        } else if c == '>' {
            m.emit_char('>').to_state(State::ScriptData).consume()
        } else if c == '\0' {
            m.err(ParseError::UnexpectedNullCharacter).emit_char('\u{fffd}').to_state(
                State::ScriptDataDoubleEscaped,
            ).consume()
        } else {
            m.emit_char(c).to_state(State::ScriptDataDoubleEscaped).consume()
        }
    }
}

pub open spec fn sp_script_data_double_escaped_less_than_sign(m: M) -> M {
    if !m.at_eof() && m.cur() == '/' {
        m.buffer_reset(Seq::empty()).emit_char('/').to_state(
            State::ScriptDataDoubleEscapeEnd,
        ).consume()
    } else {
        m.to_state(State::ScriptDataDoubleEscaped)
    }
}

impl Tokenizer {
    pub(crate) fn st_script_data_less_than_sign(&mut self)
        ensures
            final(self)@ == sp_script_data_less_than_sign(old(self)@),
            old(self)@.inv() && !old(self)@.done && old(self)@.state == State::ScriptDataLessThanSign
                ==> crate::machine::step_progress(
                old(self)@,
                final(self)@,
            ),
            !old(self)@.done ==> crate::machine::eof_step_ok(old(self)@, final(self)@),
    {
        if !self.at_end() && self.current_char() == '/' {
            self.buffer_clear();
            self.switch_to(State::ScriptDataEndTagOpen);
        } else if !self.at_end() && self.current_char() == '!' {
            self.emit_char('<');
            self.emit_char('!');
            self.switch_to(State::ScriptDataEscapeStart);
        } else {
            self.emit_char('<');
            self.switch_to_without_consuming(State::ScriptData);
        }
    }

    pub(crate) fn st_script_data_escape_start(&mut self)
        ensures
            final(self)@ == sp_script_data_escape_start(old(self)@),
            old(self)@.inv() && !old(self)@.done && old(self)@.state == State::ScriptDataEscapeStart
                ==> crate::machine::step_progress(
                old(self)@,
                final(self)@,
            ),
            !old(self)@.done ==> crate::machine::eof_step_ok(old(self)@, final(self)@),
    {
        if !self.at_end() && self.current_char() == '-' {
            self.emit_char('-');
            self.switch_to(State::ScriptDataEscapeStartDash);
        } else {
            self.switch_to_without_consuming(State::ScriptData);
        }
    }

    pub(crate) fn st_script_data_escape_start_dash(&mut self)
        ensures
            final(self)@ == sp_script_data_escape_start_dash(old(self)@),
            old(self)@.inv() && !old(self)@.done && old(self)@.state == State::ScriptDataEscapeStartDash
                ==> crate::machine::step_progress(
                old(self)@,
                final(self)@,
            ),
            !old(self)@.done ==> crate::machine::eof_step_ok(old(self)@, final(self)@),
    {
        if !self.at_end() && self.current_char() == '-' {
            self.emit_char('-');
            self.switch_to(State::ScriptDataEscapedDashDash);
        } else {
            self.switch_to_without_consuming(State::ScriptData);
        }
    }

    pub(crate) fn st_script_data_escaped(&mut self)
        ensures
            final(self)@ == sp_script_data_escaped(old(self)@),
            old(self)@.inv() && !old(self)@.done && old(self)@.state == State::ScriptDataEscaped
                ==> crate::machine::step_progress(
                old(self)@,
                final(self)@,
            ),
            !old(self)@.done ==> crate::machine::eof_step_ok(old(self)@, final(self)@),
    {
        if self.at_end() {
            self.err(ParseError::EofInScriptHtmlCommentLikeText);
            self.emit_eof();
            return ;
        }
        let c = self.current_char();
        if c == '-' {
            self.emit_char('-');
            self.switch_to(State::ScriptDataEscapedDash);
        } else if c == '<' {
            self.switch_to(State::ScriptDataEscapedLessThanSign);
        } else if c == '\0' {
            self.err(ParseError::UnexpectedNullCharacter);
            self.emit_char('\u{fffd}');
            self.consume();
        } else {
            self.emit_char(c);
            self.consume();
        }
    }

    pub(crate) fn st_script_data_escaped_dash(&mut self)
        ensures
            final(self)@ == sp_script_data_escaped_dash(old(self)@),
            old(self)@.inv() && !old(self)@.done && old(self)@.state == State::ScriptDataEscapedDash
                ==> crate::machine::step_progress(
                old(self)@,
                final(self)@,
            ),
            !old(self)@.done ==> crate::machine::eof_step_ok(old(self)@, final(self)@),
    {
        if self.at_end() {
            self.err(ParseError::EofInScriptHtmlCommentLikeText);
            self.emit_eof();
            return ;
        }
        let c = self.current_char();
        if c == '-' {
            self.emit_char('-');
            self.switch_to(State::ScriptDataEscapedDashDash);
        } else if c == '<' {
            self.switch_to(State::ScriptDataEscapedLessThanSign);
        } else if c == '\0' {
            self.err(ParseError::UnexpectedNullCharacter);
            self.emit_char('\u{fffd}');
            self.switch_to(State::ScriptDataEscaped);
        } else {
            self.emit_char(c);
            self.switch_to(State::ScriptDataEscaped);
        }
    }

    pub(crate) fn st_script_data_escaped_dash_dash(&mut self)
        ensures
            final(self)@ == sp_script_data_escaped_dash_dash(old(self)@),
            old(self)@.inv() && !old(self)@.done && old(self)@.state == State::ScriptDataEscapedDashDash
                ==> crate::machine::step_progress(
                old(self)@,
                final(self)@,
            ),
            !old(self)@.done ==> crate::machine::eof_step_ok(old(self)@, final(self)@),
    {
        if self.at_end() {
            self.err(ParseError::EofInScriptHtmlCommentLikeText);
            self.emit_eof();
            return ;
        }
        let c = self.current_char();
        if c == '-' {
            self.emit_char('-');
            self.consume();
        } else if c == '<' {
            self.switch_to(State::ScriptDataEscapedLessThanSign);
        } else if c == '>' {
            self.emit_char('>');
            self.switch_to(State::ScriptData);
        } else if c == '\0' {
            self.err(ParseError::UnexpectedNullCharacter);
            self.emit_char('\u{fffd}');
            self.switch_to(State::ScriptDataEscaped);
        } else {
            self.emit_char(c);
            self.switch_to(State::ScriptDataEscaped);
        }
    }

    pub(crate) fn st_script_data_escaped_less_than_sign(&mut self)
        ensures
            final(self)@ == sp_script_data_escaped_less_than_sign(old(self)@),
            old(self)@.inv() && !old(self)@.done && old(self)@.state == State::ScriptDataEscapedLessThanSign
                ==> crate::machine::step_progress(
                old(self)@,
                final(self)@,
            ),
            !old(self)@.done ==> crate::machine::eof_step_ok(old(self)@, final(self)@),
    {
        if !self.at_end() && self.current_char() == '/' {
            self.buffer_clear();
            self.switch_to(State::ScriptDataEscapedEndTagOpen);
        } else if !self.at_end() && util::alpha(self.current_char()) {
            self.buffer_clear();
            self.emit_char('<');
            self.switch_to_without_consuming(State::ScriptDataDoubleEscapeStart);
        } else {
            self.emit_char('<');
            self.switch_to_without_consuming(State::ScriptDataEscaped);
        }
    }

    pub(crate) fn st_script_data_escaped_end_tag_open(&mut self)
        ensures
            final(self)@ == sp_script_data_escaped_end_tag_open(old(self)@),
            old(self)@.inv() && !old(self)@.done && old(self)@.state == State::ScriptDataEscapedEndTagOpen
                ==> crate::machine::step_progress(
                old(self)@,
                final(self)@,
            ),
            !old(self)@.done ==> crate::machine::eof_step_ok(old(self)@, final(self)@),
    {
        if !self.at_end() && util::alpha(self.current_char()) {
            self.start_end_tag();
            self.switch_to_without_consuming(State::ScriptDataEscapedEndTagName);
        } else {
            self.emit_char('<');
            self.emit_char('/');
            self.switch_to_without_consuming(State::ScriptDataEscaped);
        }
    }

    pub(crate) fn st_script_data_double_escape_decide(
        &mut self,
        yes: State,
        no: State,
        back: State,
    )
        ensures
            final(self)@ == sp_script_data_double_escape_decide(old(self)@, yes, no, back),
    {
        if self.at_end() {
            self.switch_to_without_consuming(back);
            return ;
        }
        let c = self.current_char();
        if util::ws(c) || c == '/' || c == '>' {
            let is_script = self.buffer_spells_script();
            self.emit_char(c);
            if is_script {
                self.switch_to(yes);
            } else {
                self.switch_to(no);
            }
        } else if util::alpha(c) {
            self.buffer_push(util::lower_char(c));
            self.emit_char(c);
            self.consume();
        } else {
            self.switch_to_without_consuming(back);
        }
    }

    pub(crate) fn st_script_data_double_escaped(&mut self)
        ensures
            final(self)@ == sp_script_data_double_escaped(old(self)@),
            old(self)@.inv() && !old(self)@.done && old(self)@.state == State::ScriptDataDoubleEscaped
                ==> crate::machine::step_progress(
                old(self)@,
                final(self)@,
            ),
            !old(self)@.done ==> crate::machine::eof_step_ok(old(self)@, final(self)@),
    {
        if self.at_end() {
            self.err(ParseError::EofInScriptHtmlCommentLikeText);
            self.emit_eof();
            return ;
        }
        let c = self.current_char();
        if c == '-' {
            self.emit_char('-');
            self.switch_to(State::ScriptDataDoubleEscapedDash);
        } else if c == '<' {
            self.emit_char('<');
            self.switch_to(State::ScriptDataDoubleEscapedLessThanSign);
        } else if c == '\0' {
            self.err(ParseError::UnexpectedNullCharacter);
            self.emit_char('\u{fffd}');
            self.consume();
        } else {
            self.emit_char(c);
            self.consume();
        }
    }

    pub(crate) fn st_script_data_double_escaped_dash(&mut self)
        ensures
            final(self)@ == sp_script_data_double_escaped_dash(old(self)@),
            old(self)@.inv() && !old(self)@.done && old(self)@.state == State::ScriptDataDoubleEscapedDash
                ==> crate::machine::step_progress(
                old(self)@,
                final(self)@,
            ),
            !old(self)@.done ==> crate::machine::eof_step_ok(old(self)@, final(self)@),
    {
        if self.at_end() {
            self.err(ParseError::EofInScriptHtmlCommentLikeText);
            self.emit_eof();
            return ;
        }
        let c = self.current_char();
        if c == '-' {
            self.emit_char('-');
            self.switch_to(State::ScriptDataDoubleEscapedDashDash);
        } else if c == '<' {
            self.emit_char('<');
            self.switch_to(State::ScriptDataDoubleEscapedLessThanSign);
        } else if c == '\0' {
            self.err(ParseError::UnexpectedNullCharacter);
            self.emit_char('\u{fffd}');
            self.switch_to(State::ScriptDataDoubleEscaped);
        } else {
            self.emit_char(c);
            self.switch_to(State::ScriptDataDoubleEscaped);
        }
    }

    pub(crate) fn st_script_data_double_escaped_dash_dash(&mut self)
        ensures
            final(self)@ == sp_script_data_double_escaped_dash_dash(old(self)@),
            old(self)@.inv() && !old(self)@.done && old(self)@.state == State::ScriptDataDoubleEscapedDashDash
                ==> crate::machine::step_progress(
                old(self)@,
                final(self)@,
            ),
            !old(self)@.done ==> crate::machine::eof_step_ok(old(self)@, final(self)@),
    {
        if self.at_end() {
            self.err(ParseError::EofInScriptHtmlCommentLikeText);
            self.emit_eof();
            return ;
        }
        let c = self.current_char();
        if c == '-' {
            self.emit_char('-');
            self.consume();
        } else if c == '<' {
            self.emit_char('<');
            self.switch_to(State::ScriptDataDoubleEscapedLessThanSign);
        } else if c == '>' {
            self.emit_char('>');
            self.switch_to(State::ScriptData);
        } else if c == '\0' {
            self.err(ParseError::UnexpectedNullCharacter);
            self.emit_char('\u{fffd}');
            self.switch_to(State::ScriptDataDoubleEscaped);
        } else {
            self.emit_char(c);
            self.switch_to(State::ScriptDataDoubleEscaped);
        }
    }

    pub(crate) fn st_script_data_double_escaped_less_than_sign(&mut self)
        ensures
            final(self)@ == sp_script_data_double_escaped_less_than_sign(old(self)@),
            old(self)@.inv() && !old(self)@.done && old(self)@.state == State::ScriptDataDoubleEscapedLessThanSign
                ==> crate::machine::step_progress(
                old(self)@,
                final(self)@,
            ),
            !old(self)@.done ==> crate::machine::eof_step_ok(old(self)@, final(self)@),
    {
        if !self.at_end() && self.current_char() == '/' {
            self.buffer_clear();
            self.emit_char('/');
            self.switch_to(State::ScriptDataDoubleEscapeEnd);
        } else {
            self.switch_to_without_consuming(State::ScriptDataDoubleEscaped);
        }
    }

}

/// The word `script`, which the double-escape states compare against.
pub(crate) fn script_chars() -> (v: Vec<char>)
    ensures
        v@ == seq!['s', 'c', 'r', 'i', 'p', 't'],
{
    let mut v: Vec<char> = Vec::new();
    v.push('s');
    v.push('c');
    v.push('r');
    v.push('i');
    v.push('p');
    v.push('t');
    proof {
        assert(v@ =~= seq!['s', 'c', 'r', 'i', 'p', 't']);
    }
    v
}

} // verus!
