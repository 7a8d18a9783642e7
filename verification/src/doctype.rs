//! Doctype states: name, optional public and system identifiers (presence
//! and emptiness are distinguished), and the `force_quirks` flag set on any
//! malformed declaration.  End of input inside any of these states emits the
//! doctype built so far with `force_quirks` set rather than dropping it.

use vstd::prelude::*;
use crate::state::State;
use crate::token::ParseError;
use crate::model::M;
use crate::model::is_ws;
use crate::model::to_lower;
use crate::model::matches_at_ci;
use crate::tokenizer::Tokenizer;
use crate::util;

verus! {

broadcast use crate::model::lemma_chars_tokens_facts;

pub open spec fn sp_doctype(m: M) -> M {
    if m.at_eof() {
        m.err(ParseError::EofInDoctype).start_doctype(false, Seq::empty(), true).emit_doctype(
        ).emit_eof()
    } else {
        let c = m.cur();
        if is_ws(c) {
            m.to_state(State::BeforeDOCTYPEName).consume()
        } else if c == '>' {
            m.to_state(State::BeforeDOCTYPEName)
        } else {
            m.err(ParseError::MissingWhitespaceBeforeDoctypeName).to_state(
                State::BeforeDOCTYPEName,
            )
        }
    }
}

pub open spec fn sp_before_doctype_name(m: M) -> M {
    if m.at_eof() {
        m.err(ParseError::EofInDoctype).start_doctype(false, Seq::empty(), true).emit_doctype(
        ).emit_eof()
    } else {
        let c = m.cur();
        if is_ws(c) {
            m.consume()
        } else if c == '\0' {
            m.err(ParseError::UnexpectedNullCharacter).start_doctype(
                true,
                seq!['\u{fffd}'],
                false,
            ).to_state(State::DOCTYPEName).consume()
        } else if c == '>' {
            m.err(ParseError::MissingDoctypeName).start_doctype(
                false,
                Seq::empty(),
                true,
            ).emit_doctype().to_state(State::Data).consume()
        } else {
            m.start_doctype(true, seq![to_lower(c)], false).to_state(
                State::DOCTYPEName,
            ).consume()
        }
    }
}

pub open spec fn sp_doctype_name(m: M) -> M {
    if m.at_eof() {
        m.err(ParseError::EofInDoctype).set_quirks().emit_doctype().emit_eof()
    } else {
        let c = m.cur();
        if is_ws(c) {
            m.to_state(State::AfterDOCTYPEName).consume()
        } else if c == '>' {
            m.emit_doctype().to_state(State::Data).consume()
        } else if c == '\0' {
            m.err(ParseError::UnexpectedNullCharacter).append_dt_name('\u{fffd}').consume()
        } else {
            m.append_dt_name(to_lower(c)).consume()
        }
    }
}

pub open spec fn sp_after_doctype_name(m: M) -> M {
    if m.at_eof() {
        m.err(ParseError::EofInDoctype).set_quirks().emit_doctype().emit_eof()
    } else {
        let c = m.cur();
        if is_ws(c) {
            m.consume()
        } else if c == '>' {
            m.emit_doctype().to_state(State::Data).consume()
        } else if matches_at_ci(m, 0, seq!['p', 'u', 'b', 'l', 'i', 'c']) {
            m.to_state(State::AfterDOCTYPEPublicKeyword).advance(6)
        } else if matches_at_ci(m, 0, seq!['s', 'y', 's', 't', 'e', 'm']) {
            m.to_state(State::AfterDOCTYPESystemKeyword).advance(6)
        } else {
            m.err(ParseError::InvalidCharacterSequenceAfterDoctypeName).set_quirks().to_state(
                State::BogusDOCTYPE,
            )
        }
    }
}

pub open spec fn sp_after_doctype_public_keyword(m: M) -> M {
    if m.at_eof() {
        m.err(ParseError::EofInDoctype).set_quirks().emit_doctype().emit_eof()
    } else {
        let c = m.cur();
        if is_ws(c) {
            m.to_state(State::BeforeDOCTYPEPublicIdentifier).consume()
        } else if c == '"' {
            m.err(ParseError::MissingWhitespaceAfterDoctypePublicKeyword).set_public_empty(
            ).to_state(State::DOCTYPEPublicIdentifierDoubleQuoted).consume()
        } else if c == '\'' {
            m.err(ParseError::MissingWhitespaceAfterDoctypePublicKeyword).set_public_empty(
            ).to_state(State::DOCTYPEPublicIdentifierSingleQuoted).consume()
        } else if c == '>' {
            m.err(ParseError::MissingDoctypePublicIdentifier).set_quirks().emit_doctype(
            ).to_state(State::Data).consume()
        } else {
            m.err(ParseError::MissingQuoteBeforeDoctypePublicIdentifier).set_quirks().to_state(
                State::BogusDOCTYPE,
            )
        }
    }
}

pub open spec fn sp_before_doctype_public_identifier(m: M) -> M {
    if m.at_eof() {
        m.err(ParseError::EofInDoctype).set_quirks().emit_doctype().emit_eof()
    } else {
        let c = m.cur();
        if is_ws(c) {
            m.consume()
        } else if c == '"' {
            m.set_public_empty().to_state(State::DOCTYPEPublicIdentifierDoubleQuoted).consume()
        } else if c == '\'' {
            m.set_public_empty().to_state(State::DOCTYPEPublicIdentifierSingleQuoted).consume()
        } else if c == '>' {
            m.err(ParseError::MissingDoctypePublicIdentifier).set_quirks().emit_doctype(
            ).to_state(State::Data).consume()
        } else {
            m.err(ParseError::MissingQuoteBeforeDoctypePublicIdentifier).set_quirks().to_state(
                State::BogusDOCTYPE,
            )
        }
    }
}

pub open spec fn sp_doctype_public_identifier_quoted(m: M, quote: char) -> M {
    if m.at_eof() {
        m.err(ParseError::EofInDoctype).set_quirks().emit_doctype().emit_eof()
    } else {
        let c = m.cur();
        if c == quote {
            m.to_state(State::AfterDOCTYPEPublicIdentifier).consume()
        } else if c == '\0' {
            m.err(ParseError::UnexpectedNullCharacter).append_public('\u{fffd}').consume()
        } else if c == '>' {
            m.err(ParseError::AbruptDoctypePublicIdentifier).set_quirks().emit_doctype(
            ).to_state(State::Data).consume()
        } else {
            m.append_public(c).consume()
        }
    }
}

pub open spec fn sp_after_doctype_public_identifier(m: M) -> M {
    if m.at_eof() {
        m.err(ParseError::EofInDoctype).set_quirks().emit_doctype().emit_eof()
    } else {
        let c = m.cur();
        if is_ws(c) {
            m.to_state(State::BetweenDOCTYPEPublicAndSystemIdentifiers).consume()
        } else if c == '>' {
            m.emit_doctype().to_state(State::Data).consume()
        } else if c == '"' {
            m.err(ParseError::MissingWhitespaceBetweenDoctypeIdentifiers).set_system_empty(
            ).to_state(State::DOCTYPESystemIdentifierDoubleQuoted).consume()
        } else if c == '\'' {
            m.err(ParseError::MissingWhitespaceBetweenDoctypeIdentifiers).set_system_empty(
            ).to_state(State::DOCTYPESystemIdentifierSingleQuoted).consume()
        } else {
            m.err(ParseError::MissingQuoteBeforeDoctypeSystemIdentifier).set_quirks().to_state(
                State::BogusDOCTYPE,
            )
        }
    }
}

pub open spec fn sp_between_doctype_public_and_system_identifiers(m: M) -> M {
    if m.at_eof() {
        m.err(ParseError::EofInDoctype).set_quirks().emit_doctype().emit_eof()
    } else {
        let c = m.cur();
        if is_ws(c) {
            m.consume()
        } else if c == '>' {
            m.emit_doctype().to_state(State::Data).consume()
        } else if c == '"' {
            m.set_system_empty().to_state(State::DOCTYPESystemIdentifierDoubleQuoted).consume()
        } else if c == '\'' {
            m.set_system_empty().to_state(State::DOCTYPESystemIdentifierSingleQuoted).consume()
        } else {
            m.err(ParseError::MissingQuoteBeforeDoctypeSystemIdentifier).set_quirks().to_state(
                State::BogusDOCTYPE,
            )
        }
    }
}

pub open spec fn sp_after_doctype_system_keyword(m: M) -> M {
    if m.at_eof() {
        m.err(ParseError::EofInDoctype).set_quirks().emit_doctype().emit_eof()
    } else {
        let c = m.cur();
        if is_ws(c) {
            m.to_state(State::BeforeDOCTYPESystemIdentifier).consume()
        } else if c == '"' {
            m.err(ParseError::MissingWhitespaceAfterDoctypeSystemKeyword).set_system_empty(
            ).to_state(State::DOCTYPESystemIdentifierDoubleQuoted).consume()
        } else if c == '\'' {
            m.err(ParseError::MissingWhitespaceAfterDoctypeSystemKeyword).set_system_empty(
            ).to_state(State::DOCTYPESystemIdentifierSingleQuoted).consume()
        } else if c == '>' {
            m.err(ParseError::MissingDoctypeSystemIdentifier).set_quirks().emit_doctype(
            ).to_state(State::Data).consume()
        } else {
            m.err(ParseError::MissingQuoteBeforeDoctypeSystemIdentifier).set_quirks().to_state(
                State::BogusDOCTYPE,
            )
        }
    }
}

pub open spec fn sp_before_doctype_system_identifier(m: M) -> M {
    if m.at_eof() {
        m.err(ParseError::EofInDoctype).set_quirks().emit_doctype().emit_eof()
    } else {
        let c = m.cur();
        if is_ws(c) {
            m.consume()
        } else if c == '"' {
            m.set_system_empty().to_state(State::DOCTYPESystemIdentifierDoubleQuoted).consume()
        } else if c == '\'' {
            m.set_system_empty().to_state(State::DOCTYPESystemIdentifierSingleQuoted).consume()
        } else if c == '>' {
            m.err(ParseError::MissingDoctypeSystemIdentifier).set_quirks().emit_doctype(
            ).to_state(State::Data).consume()
        } else {
            m.err(ParseError::MissingQuoteBeforeDoctypeSystemIdentifier).set_quirks().to_state(
                State::BogusDOCTYPE,
            )
        }
    }
}

pub open spec fn sp_doctype_system_identifier_quoted(m: M, quote: char) -> M {
    if m.at_eof() {
        m.err(ParseError::EofInDoctype).set_quirks().emit_doctype().emit_eof()
    } else {
        let c = m.cur();
        if c == quote {
            m.to_state(State::AfterDOCTYPESystemIdentifier).consume()
        } else if c == '\0' {
            m.err(ParseError::UnexpectedNullCharacter).append_system('\u{fffd}').consume()
        } else if c == '>' {
            m.err(ParseError::AbruptDoctypeSystemIdentifier).set_quirks().emit_doctype(
            ).to_state(State::Data).consume()
        } else {
            m.append_system(c).consume()
        }
    }
}

pub open spec fn sp_after_doctype_system_identifier(m: M) -> M {
    if m.at_eof() {
        m.err(ParseError::EofInDoctype).set_quirks().emit_doctype().emit_eof()
    } else {
        let c = m.cur();
        if is_ws(c) {
            m.consume()
        } else if c == '>' {
            m.emit_doctype().to_state(State::Data).consume()
        } else {
            m.err(ParseError::UnexpectedCharacterAfterDoctypeSystemIdentifier).to_state(
                State::BogusDOCTYPE,
            )
        }
    }
}

pub open spec fn sp_bogus_doctype(m: M) -> M {
    if m.at_eof() {
        m.emit_doctype().emit_eof()
    } else {
        let c = m.cur();
        if c == '>' {
            m.emit_doctype().to_state(State::Data).consume()
        } else if c == '\0' {
            m.err(ParseError::UnexpectedNullCharacter).consume()
        } else {
            m.consume()
        }
    }
}

impl Tokenizer {
    pub(crate) fn st_doctype(&mut self)
        ensures
            final(self)@ == sp_doctype(old(self)@),
            old(self)@.inv() && !old(self)@.done && old(self)@.state == State::DOCTYPE
                ==> crate::machine::step_progress(
                old(self)@,
                final(self)@,
            ),
            !old(self)@.done ==> crate::machine::eof_step_ok(old(self)@, final(self)@),
    {
        if self.at_end() {
            self.err(ParseError::EofInDoctype);
            self.start_doctype_absent(true);
            self.emit_doctype();
            self.emit_eof();
            return ;
        }
        let c = self.current_char();
        if util::ws(c) {
            self.switch_to(State::BeforeDOCTYPEName);
        } else if c == '>' {
            self.switch_to_without_consuming(State::BeforeDOCTYPEName);
        } else {
            self.err(ParseError::MissingWhitespaceBeforeDoctypeName);
            self.switch_to_without_consuming(State::BeforeDOCTYPEName);
        }
    }

    pub(crate) fn st_before_doctype_name(&mut self)
        ensures
            final(self)@ == sp_before_doctype_name(old(self)@),
            old(self)@.inv() && !old(self)@.done && old(self)@.state == State::BeforeDOCTYPEName
                ==> crate::machine::step_progress(
                old(self)@,
                final(self)@,
            ),
            !old(self)@.done ==> crate::machine::eof_step_ok(old(self)@, final(self)@),
    {
        if self.at_end() {
            self.err(ParseError::EofInDoctype);
            self.start_doctype_absent(true);
            self.emit_doctype();
            self.emit_eof();
            return ;
        }
        let c = self.current_char();
        if util::ws(c) {
            self.consume();
        } else if c == '\0' {
            self.err(ParseError::UnexpectedNullCharacter);
            self.start_doctype_named('\u{fffd}');
            self.switch_to(State::DOCTYPEName);
        } else if c == '>' {
            self.err(ParseError::MissingDoctypeName);
            self.start_doctype_absent(true);
            self.emit_doctype();
            self.switch_to(State::Data);
        } else {
            self.start_doctype_named(util::lower_char(c));
            self.switch_to(State::DOCTYPEName);
        }
    }

    pub(crate) fn st_doctype_name(&mut self)
        ensures
            final(self)@ == sp_doctype_name(old(self)@),
            old(self)@.inv() && !old(self)@.done && old(self)@.state == State::DOCTYPEName
                ==> crate::machine::step_progress(
                old(self)@,
                final(self)@,
            ),
            !old(self)@.done ==> crate::machine::eof_step_ok(old(self)@, final(self)@),
    {
        if self.at_end() {
            self.err(ParseError::EofInDoctype);
            self.set_quirks();
            self.emit_doctype();
            self.emit_eof();
            return ;
        }
        let c = self.current_char();
        if util::ws(c) {
            self.switch_to(State::AfterDOCTYPEName);
        } else if c == '>' {
            self.emit_doctype();
            self.switch_to(State::Data);
        } else if c == '\0' {
            self.err(ParseError::UnexpectedNullCharacter);
            self.append_dt_name('\u{fffd}');
            self.consume();
        } else {
            self.append_dt_name(util::lower_char(c));
            self.consume();
        }
    }

    pub(crate) fn st_after_doctype_name(&mut self)
        ensures
            final(self)@ == sp_after_doctype_name(old(self)@),
            old(self)@.inv() && !old(self)@.done && old(self)@.state == State::AfterDOCTYPEName
                ==> crate::machine::step_progress(
                old(self)@,
                final(self)@,
            ),
            !old(self)@.done ==> crate::machine::eof_step_ok(old(self)@, final(self)@),
    {
        if self.at_end() {
            self.err(ParseError::EofInDoctype);
            self.set_quirks();
            self.emit_doctype();
            self.emit_eof();
            return ;
        }
        let c = self.current_char();
        if util::ws(c) {
            self.consume();
            return ;
        }
        if c == '>' {
            self.emit_doctype();
            self.switch_to(State::Data);
            return ;
        }
        let public_word = public_chars();
        let system_word = system_chars();
        if self.lookahead_ci(0, &public_word) {
            self.switch_to_without_consuming(State::AfterDOCTYPEPublicKeyword);
            self.advance_by(6);
        } else if self.lookahead_ci(0, &system_word) {
            self.switch_to_without_consuming(State::AfterDOCTYPESystemKeyword);
            self.advance_by(6);
        } else {
            self.err(ParseError::InvalidCharacterSequenceAfterDoctypeName);
            self.set_quirks();
            self.switch_to_without_consuming(State::BogusDOCTYPE);
        }
    }

    pub(crate) fn st_after_doctype_public_keyword(&mut self)
        ensures
            final(self)@ == sp_after_doctype_public_keyword(old(self)@),
            old(self)@.inv() && !old(self)@.done && old(self)@.state == State::AfterDOCTYPEPublicKeyword
                ==> crate::machine::step_progress(
                old(self)@,
                final(self)@,
            ),
            !old(self)@.done ==> crate::machine::eof_step_ok(old(self)@, final(self)@),
    {
        if self.at_end() {
            self.err(ParseError::EofInDoctype);
            self.set_quirks();
            self.emit_doctype();
            self.emit_eof();
            return ;
        }
        let c = self.current_char();
        if util::ws(c) {
            self.switch_to(State::BeforeDOCTYPEPublicIdentifier);
        } else if c == '"' {
            self.err(ParseError::MissingWhitespaceAfterDoctypePublicKeyword);
            self.set_public_empty();
            self.switch_to(State::DOCTYPEPublicIdentifierDoubleQuoted);
        } else if c == '\'' {
            self.err(ParseError::MissingWhitespaceAfterDoctypePublicKeyword);
            self.set_public_empty();
            self.switch_to(State::DOCTYPEPublicIdentifierSingleQuoted);
        } else if c == '>' {
            self.err(ParseError::MissingDoctypePublicIdentifier);
            self.set_quirks();
            self.emit_doctype();
            self.switch_to(State::Data);
        } else {
            self.err(ParseError::MissingQuoteBeforeDoctypePublicIdentifier);
            self.set_quirks();
            self.switch_to_without_consuming(State::BogusDOCTYPE);
        }
    }

    pub(crate) fn st_before_doctype_public_identifier(&mut self)
        ensures
            final(self)@ == sp_before_doctype_public_identifier(old(self)@),
            old(self)@.inv() && !old(self)@.done && old(self)@.state == State::BeforeDOCTYPEPublicIdentifier
                ==> crate::machine::step_progress(
                old(self)@,
                final(self)@,
            ),
            !old(self)@.done ==> crate::machine::eof_step_ok(old(self)@, final(self)@),
    {
        if self.at_end() {
            self.err(ParseError::EofInDoctype);
            self.set_quirks();
            self.emit_doctype();
            self.emit_eof();
            return ;
        }
        let c = self.current_char();
        if util::ws(c) {
            self.consume();
        } else if c == '"' {
            self.set_public_empty();
            self.switch_to(State::DOCTYPEPublicIdentifierDoubleQuoted);
        } else if c == '\'' {
            self.set_public_empty();
            self.switch_to(State::DOCTYPEPublicIdentifierSingleQuoted);
        } else if c == '>' {
            self.err(ParseError::MissingDoctypePublicIdentifier);
            self.set_quirks();
            self.emit_doctype();
            self.switch_to(State::Data);
        } else {
            self.err(ParseError::MissingQuoteBeforeDoctypePublicIdentifier);
            self.set_quirks();
            self.switch_to_without_consuming(State::BogusDOCTYPE);
        }
    }

    pub(crate) fn st_doctype_public_identifier_quoted(&mut self, quote: char)
        ensures
            final(self)@ == sp_doctype_public_identifier_quoted(old(self)@, quote),
            old(self)@.inv() && !old(self)@.done && (old(self)@.state == State::DOCTYPEPublicIdentifierDoubleQuoted
                || old(self)@.state == State::DOCTYPEPublicIdentifierSingleQuoted) ==> crate::machine::step_progress(
                old(self)@,
                final(self)@,
            ),
            !old(self)@.done ==> crate::machine::eof_step_ok(old(self)@, final(self)@),
    {
        if self.at_end() {
            self.err(ParseError::EofInDoctype);
            self.set_quirks();
            self.emit_doctype();
            self.emit_eof();
            return ;
        }
        let c = self.current_char();
        if c == quote {
            self.switch_to(State::AfterDOCTYPEPublicIdentifier);
        } else if c == '\0' {
            self.err(ParseError::UnexpectedNullCharacter);
            self.append_public('\u{fffd}');
            self.consume();
        } else if c == '>' {
            self.err(ParseError::AbruptDoctypePublicIdentifier);
            self.set_quirks();
            self.emit_doctype();
            self.switch_to(State::Data);
        } else {
            self.append_public(c);
            self.consume();
        }
    }

    pub(crate) fn st_after_doctype_public_identifier(&mut self)
        ensures
            final(self)@ == sp_after_doctype_public_identifier(old(self)@),
            old(self)@.inv() && !old(self)@.done && old(self)@.state == State::AfterDOCTYPEPublicIdentifier
                ==> crate::machine::step_progress(
                old(self)@,
                final(self)@,
            ),
            !old(self)@.done ==> crate::machine::eof_step_ok(old(self)@, final(self)@),
    {
        if self.at_end() {
            self.err(ParseError::EofInDoctype);
            self.set_quirks();
            self.emit_doctype();
            self.emit_eof();
            return ;
        }
        let c = self.current_char();
        if util::ws(c) {
            self.switch_to(State::BetweenDOCTYPEPublicAndSystemIdentifiers);
        } else if c == '>' {
            self.emit_doctype();
            self.switch_to(State::Data);
        } else if c == '"' {
            self.err(ParseError::MissingWhitespaceBetweenDoctypeIdentifiers);
            self.set_system_empty();
            self.switch_to(State::DOCTYPESystemIdentifierDoubleQuoted);
        } else if c == '\'' {
            self.err(ParseError::MissingWhitespaceBetweenDoctypeIdentifiers);
            self.set_system_empty();
            self.switch_to(State::DOCTYPESystemIdentifierSingleQuoted);
        } else {
            self.err(ParseError::MissingQuoteBeforeDoctypeSystemIdentifier);
            self.set_quirks();
            self.switch_to_without_consuming(State::BogusDOCTYPE);
        }
    }

    pub(crate) fn st_between_doctype_public_and_system_identifiers(&mut self)
        ensures
            final(self)@ == sp_between_doctype_public_and_system_identifiers(old(self)@),
            old(self)@.inv() && !old(self)@.done && old(self)@.state == State::BetweenDOCTYPEPublicAndSystemIdentifiers
                ==> crate::machine::step_progress(
                old(self)@,
                final(self)@,
            ),
            !old(self)@.done ==> crate::machine::eof_step_ok(old(self)@, final(self)@),
    {
        if self.at_end() {
            self.err(ParseError::EofInDoctype);
            self.set_quirks();
            self.emit_doctype();
            self.emit_eof();
            return ;
        }
        let c = self.current_char();
        if util::ws(c) {
            self.consume();
        } else if c == '>' {
            self.emit_doctype();
            self.switch_to(State::Data);
        } else if c == '"' {
            self.set_system_empty();
            self.switch_to(State::DOCTYPESystemIdentifierDoubleQuoted);
        } else if c == '\'' {
            self.set_system_empty();
            self.switch_to(State::DOCTYPESystemIdentifierSingleQuoted);
        } else {
            self.err(ParseError::MissingQuoteBeforeDoctypeSystemIdentifier);
            self.set_quirks();
            self.switch_to_without_consuming(State::BogusDOCTYPE);
        }
    }

    pub(crate) fn st_after_doctype_system_keyword(&mut self)
        ensures
            final(self)@ == sp_after_doctype_system_keyword(old(self)@),
            old(self)@.inv() && !old(self)@.done && old(self)@.state == State::AfterDOCTYPESystemKeyword
                ==> crate::machine::step_progress(
                old(self)@,
                final(self)@,
            ),
            !old(self)@.done ==> crate::machine::eof_step_ok(old(self)@, final(self)@),
    {
        if self.at_end() {
            self.err(ParseError::EofInDoctype);
            self.set_quirks();
            self.emit_doctype();
            self.emit_eof();
            return ;
        }
        let c = self.current_char();
        if util::ws(c) {
            self.switch_to(State::BeforeDOCTYPESystemIdentifier);
        } else if c == '"' {
            self.err(ParseError::MissingWhitespaceAfterDoctypeSystemKeyword);
            self.set_system_empty();
            self.switch_to(State::DOCTYPESystemIdentifierDoubleQuoted);
        } else if c == '\'' {
            self.err(ParseError::MissingWhitespaceAfterDoctypeSystemKeyword);
            self.set_system_empty();
            self.switch_to(State::DOCTYPESystemIdentifierSingleQuoted);
        } else if c == '>' {
            self.err(ParseError::MissingDoctypeSystemIdentifier);
            self.set_quirks();
            self.emit_doctype();
            self.switch_to(State::Data);
        } else {
            self.err(ParseError::MissingQuoteBeforeDoctypeSystemIdentifier);
            self.set_quirks();
            self.switch_to_without_consuming(State::BogusDOCTYPE);
        }
    }

    pub(crate) fn st_before_doctype_system_identifier(&mut self)
        ensures
            final(self)@ == sp_before_doctype_system_identifier(old(self)@),
            old(self)@.inv() && !old(self)@.done && old(self)@.state == State::BeforeDOCTYPESystemIdentifier
                ==> crate::machine::step_progress(
                old(self)@,
                final(self)@,
            ),
            !old(self)@.done ==> crate::machine::eof_step_ok(old(self)@, final(self)@),
    {
        if self.at_end() {
            self.err(ParseError::EofInDoctype);
            self.set_quirks();
            self.emit_doctype();
            self.emit_eof();
            return ;
        }
        let c = self.current_char();
        if util::ws(c) {
            self.consume();
        } else if c == '"' {
            self.set_system_empty();
            self.switch_to(State::DOCTYPESystemIdentifierDoubleQuoted);
        } else if c == '\'' {
            self.set_system_empty();
            self.switch_to(State::DOCTYPESystemIdentifierSingleQuoted);
        } else if c == '>' {
            self.err(ParseError::MissingDoctypeSystemIdentifier);
            self.set_quirks();
            self.emit_doctype();
            self.switch_to(State::Data);
        } else {
            self.err(ParseError::MissingQuoteBeforeDoctypeSystemIdentifier);
            self.set_quirks();
            self.switch_to_without_consuming(State::BogusDOCTYPE);
        }
    }

    pub(crate) fn st_doctype_system_identifier_quoted(&mut self, quote: char)
        ensures
            final(self)@ == sp_doctype_system_identifier_quoted(old(self)@, quote),
            old(self)@.inv() && !old(self)@.done && (old(self)@.state == State::DOCTYPESystemIdentifierDoubleQuoted
                || old(self)@.state == State::DOCTYPESystemIdentifierSingleQuoted) ==> crate::machine::step_progress(
                old(self)@,
                final(self)@,
            ),
            !old(self)@.done ==> crate::machine::eof_step_ok(old(self)@, final(self)@),
    {
        if self.at_end() {
            self.err(ParseError::EofInDoctype);
            self.set_quirks();
            self.emit_doctype();
            self.emit_eof();
            return ;
        }
        let c = self.current_char();
        if c == quote {
            self.switch_to(State::AfterDOCTYPESystemIdentifier);
        } else if c == '\0' {
            self.err(ParseError::UnexpectedNullCharacter);
            self.append_system('\u{fffd}');
            self.consume();
        } else if c == '>' {
            self.err(ParseError::AbruptDoctypeSystemIdentifier);
            self.set_quirks();
            self.emit_doctype();
            self.switch_to(State::Data);
        } else {
            self.append_system(c);
            self.consume();
        }
    }

    pub(crate) fn st_after_doctype_system_identifier(&mut self)
        ensures
            final(self)@ == sp_after_doctype_system_identifier(old(self)@),
            old(self)@.inv() && !old(self)@.done && old(self)@.state == State::AfterDOCTYPESystemIdentifier
                ==> crate::machine::step_progress(
                old(self)@,
                final(self)@,
            ),
            !old(self)@.done ==> crate::machine::eof_step_ok(old(self)@, final(self)@),
    {
        if self.at_end() {
            self.err(ParseError::EofInDoctype);
            self.set_quirks();
            self.emit_doctype();
            self.emit_eof();
            return ;
        }
        let c = self.current_char();
        if util::ws(c) {
            self.consume();
        } else if c == '>' {
            self.emit_doctype();
            self.switch_to(State::Data);
        } else {
            self.err(ParseError::UnexpectedCharacterAfterDoctypeSystemIdentifier);
            self.switch_to_without_consuming(State::BogusDOCTYPE);
        }
    }

    pub(crate) fn st_bogus_doctype(&mut self)
        ensures
            final(self)@ == sp_bogus_doctype(old(self)@),
            old(self)@.inv() && !old(self)@.done && old(self)@.state == State::BogusDOCTYPE
                ==> crate::machine::step_progress(
                old(self)@,
                final(self)@,
            ),
            !old(self)@.done ==> crate::machine::eof_step_ok(old(self)@, final(self)@),
    {
        if self.at_end() {
            self.emit_doctype();
            self.emit_eof();
            return ;
        }
        let c = self.current_char();
        if c == '>' {
            self.emit_doctype();
            self.switch_to(State::Data);
        } else if c == '\0' {
            self.err(ParseError::UnexpectedNullCharacter);
            self.consume();
        } else {
            self.consume();
        }
    }
}

/// The keyword `public`, for the case-insensitive match after a doctype name.
pub(crate) fn public_chars() -> (v: Vec<char>)
    ensures
        v@ == seq!['p', 'u', 'b', 'l', 'i', 'c'],
{
    let mut v: Vec<char> = Vec::new();
    v.push('p');
    v.push('u');
    v.push('b');
    v.push('l');
    v.push('i');
    v.push('c');
    proof {
        assert(v@ =~= seq!['p', 'u', 'b', 'l', 'i', 'c']);
    }
    v
}

/// The keyword `system`, for the case-insensitive match after a doctype name.
pub(crate) fn system_chars() -> (v: Vec<char>)
    ensures
        v@ == seq!['s', 'y', 's', 't', 'e', 'm'],
{
    let mut v: Vec<char> = Vec::new();
    v.push('s');
    v.push('y');
    v.push('s');
    v.push('t');
    v.push('e');
    v.push('m');
    proof {
        assert(v@ =~= seq!['s', 'y', 's', 't', 'e', 'm']);
    }
    v
}

} // verus!
