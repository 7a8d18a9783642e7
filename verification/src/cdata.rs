//! CDATA section states.  A CDATA section is a textual-escaping convention:
//! its content is emitted as character tokens until `]]>`, with pending `]`
//! characters re-emitted when the closer does not complete.

use vstd::prelude::*;
use crate::state::State;
use crate::token::ParseError;
use crate::model::M;
use crate::tokenizer::Tokenizer;

verus! {

broadcast use crate::model::lemma_chars_tokens_facts;

pub open spec fn sp_cdata_section(m: M) -> M {
    if m.at_eof() {
        m.err(ParseError::EofInCdata).emit_eof()
    } else {
        let c = m.cur();
        if c == ']' {
            m.to_state(State::CDATASectionBracket).consume()
        } else {
            m.emit_char(c).consume()
        }
    }
}

pub open spec fn sp_cdata_section_bracket(m: M) -> M {
    if !m.at_eof() && m.cur() == ']' {
        m.to_state(State::CDATASectionEnd).consume()
    } else {
        m.emit_char(']').to_state(State::CDATASection)
    }
}

pub open spec fn sp_cdata_section_end(m: M) -> M {
    if m.at_eof() {
        m.emit_char(']').emit_char(']').to_state(State::CDATASection)
    } else {
        let c = m.cur();
        if c == ']' {
            m.emit_char(']').consume()
        } else if c == '>' {
            m.to_state(State::Data).consume()
        } else {
            m.emit_char(']').emit_char(']').to_state(State::CDATASection)
        }
    }
}

impl Tokenizer {
    pub(crate) fn st_cdata_section(&mut self)
        ensures
            final(self)@ == sp_cdata_section(old(self)@),
            old(self)@.inv() && !old(self)@.done && old(self)@.state == State::CDATASection
                ==> crate::machine::step_progress(
                old(self)@,
                final(self)@,
            ),
            !old(self)@.done ==> crate::machine::eof_step_ok(old(self)@, final(self)@),
    {
        if self.at_end() {
            self.err(ParseError::EofInCdata);
            self.emit_eof();
            return ;
        }
        let c = self.current_char();
        if c == ']' {
            self.switch_to(State::CDATASectionBracket);
        } else {
            self.emit_char(c);
            self.consume();
        }
    }

    pub(crate) fn st_cdata_section_bracket(&mut self)
        ensures
            final(self)@ == sp_cdata_section_bracket(old(self)@),
            old(self)@.inv() && !old(self)@.done && old(self)@.state == State::CDATASectionBracket
                ==> crate::machine::step_progress(
                old(self)@,
                final(self)@,
            ),
            !old(self)@.done ==> crate::machine::eof_step_ok(old(self)@, final(self)@),
    {
        if !self.at_end() && self.current_char() == ']' {
            self.switch_to(State::CDATASectionEnd);
        } else {
            self.emit_char(']');
            self.switch_to_without_consuming(State::CDATASection);
        }
    }

    pub(crate) fn st_cdata_section_end(&mut self)
        ensures
            final(self)@ == sp_cdata_section_end(old(self)@),
            old(self)@.inv() && !old(self)@.done && old(self)@.state == State::CDATASectionEnd
                ==> crate::machine::step_progress(
                old(self)@,
                final(self)@,
            ),
            !old(self)@.done ==> crate::machine::eof_step_ok(old(self)@, final(self)@),
    {
        if self.at_end() {
            self.emit_char(']');
            self.emit_char(']');
            self.switch_to_without_consuming(State::CDATASection);
            return ;
        }
        let c = self.current_char();
        if c == ']' {
            self.emit_char(']');
            self.consume();
        } else if c == '>' {
            self.switch_to(State::Data);
        } else {
            self.emit_char(']');
            self.emit_char(']');
            self.switch_to_without_consuming(State::CDATASection);
        }
    }
}

} // verus!
