//! The content states (Data, RCDATA, RAWTEXT, ScriptData, PLAINTEXT) and the
//! less-than-sign / end-tag-open / end-tag-name states of the three special
//! content modes.  Each state has a model transition function and an
//! executable twin proved to effect exactly that transition.

use vstd::prelude::*;
use crate::state::State;
use crate::token::ParseError;
use crate::model::M;
use crate::model::is_ws;
use crate::model::is_alpha;
use crate::model::to_lower;
use crate::tokenizer::Tokenizer;
use crate::util;

verus! {

broadcast use crate::model::lemma_chars_tokens_facts;

pub open spec fn sp_data(m: M) -> M {
    if m.at_eof() {
        m.emit_eof()
    } else {
        let c = m.cur();
        if c == '&' {
            m.set_return(State::Data).buffer_reset(seq!['&']).to_state(
                State::CharacterReference,
            ).consume()
        } else if c == '<' {
            m.to_state(State::TagOpen).consume()
        } else if c == '\0' {
            m.err(ParseError::UnexpectedNullCharacter).emit_char(c).consume()
        } else {
            m.emit_char(c).consume()
        }
    }
}

pub open spec fn sp_rcdata(m: M) -> M {
    if m.at_eof() {
        m.emit_eof()
    } else {
        let c = m.cur();
        if c == '&' {
            m.set_return(State::RCDATA).buffer_reset(seq!['&']).to_state(
                State::CharacterReference,
            ).consume()
        } else if c == '<' {
            m.to_state(State::RCDATALessThanSign).consume()
        } else if c == '\0' {
            m.err(ParseError::UnexpectedNullCharacter).emit_char('\u{fffd}').consume()
        } else {
            m.emit_char(c).consume()
        }
    }
}

pub open spec fn sp_rawtext(m: M) -> M {
    if m.at_eof() {
        m.emit_eof()
    } else {
        let c = m.cur();
        if c == '<' {
            m.to_state(State::RAWTEXTLessThanSign).consume()
        } else if c == '\0' {
            m.err(ParseError::UnexpectedNullCharacter).emit_char('\u{fffd}').consume()
        } else {
            m.emit_char(c).consume()
        }
    }
}

pub open spec fn sp_script_data(m: M) -> M {
    if m.at_eof() {
        m.emit_eof()
    } else {
        let c = m.cur();
        if c == '<' {
            m.to_state(State::ScriptDataLessThanSign).consume()
        } else if c == '\0' {
            m.err(ParseError::UnexpectedNullCharacter).emit_char('\u{fffd}').consume()
        } else {
            m.emit_char(c).consume()
        }
    }
}

pub open spec fn sp_plaintext(m: M) -> M {
    if m.at_eof() {
        m.emit_eof()
    } else {
        let c = m.cur();
        if c == '\0' {
            m.err(ParseError::UnexpectedNullCharacter).emit_char('\u{fffd}').consume()
        } else {
            m.emit_char(c).consume()
        }
    }
}

/// Less-than-sign in RCDATA/RAWTEXT/ScriptData: `/` opens a tentative end
/// tag; anything else re-emits the `<` literally.
pub open spec fn sp_mode_less_than(m: M, open_state: State, back: State) -> M {
    if !m.at_eof() && m.cur() == '/' {
        m.buffer_reset(Seq::empty()).to_state(open_state).consume()
    } else {
        m.emit_char('<').to_state(back)
    }
}

/// End-tag-open of a content mode: a letter starts the tentative end tag;
/// anything else re-emits `</` literally.
pub open spec fn sp_mode_end_tag_open(m: M, name_state: State, back: State) -> M {
    if !m.at_eof() && is_alpha(m.cur()) {
        m.start_end_tag().to_state(name_state)
    } else {
        m.emit_char('<').emit_char('/').to_state(back)
    }
}

/// End-tag-name of a content mode: letters accumulate; a terminator commits
/// only when the name matches the last start tag, else the tentative end tag
/// is abandoned and re-emitted literally.
pub open spec fn sp_mode_end_tag_name(m: M, back: State) -> M {
    if !m.at_eof() && is_ws(m.cur()) && m.is_appropriate_end_tag() {
        m.to_state(State::BeforeAttributeName).consume()
    } else if !m.at_eof() && m.cur() == '/' && m.is_appropriate_end_tag() {
        m.to_state(State::SelfClosingStartTag).consume()
    } else if !m.at_eof() && m.cur() == '>' && m.is_appropriate_end_tag() {
        m.emit_tag().to_state(State::Data).consume()
    } else if !m.at_eof() && is_alpha(m.cur()) {
        m.append_tag_name(to_lower(m.cur())).buffer_push(m.cur()).consume()
    } else {
        m.emit_char('<').emit_char('/').emit_buffer_chars().to_state(back)
    }
}

impl Tokenizer {
    pub(crate) fn st_data(&mut self)
        ensures
            final(self)@ == sp_data(old(self)@),
            old(self)@.inv() && !old(self)@.done && old(self)@.state == State::Data
                ==> crate::machine::step_progress(
                old(self)@,
                final(self)@,
            ),
            !old(self)@.done ==> crate::machine::eof_step_ok(old(self)@, final(self)@),
    {
        if self.at_end() {
            self.emit_eof();
        } else {
            let c = self.current_char();
            if c == '&' {
                self.set_return(State::Data);
                self.buffer_reset_amp();
                self.switch_to(State::CharacterReference);
            } else if c == '<' {
                self.switch_to(State::TagOpen);
            } else {
                if c == '\0' {
                    self.err(ParseError::UnexpectedNullCharacter);
                }
                self.emit_char(c);
                self.consume();
            }
        }
    }

    pub(crate) fn st_rcdata(&mut self)
        ensures
            final(self)@ == sp_rcdata(old(self)@),
            old(self)@.inv() && !old(self)@.done && old(self)@.state == State::RCDATA
                ==> crate::machine::step_progress(
                old(self)@,
                final(self)@,
            ),
            !old(self)@.done ==> crate::machine::eof_step_ok(old(self)@, final(self)@),
    {
        if self.at_end() {
            self.emit_eof();
        } else {
            let c = self.current_char();
            if c == '&' {
                self.set_return(State::RCDATA);
                self.buffer_reset_amp();
                self.switch_to(State::CharacterReference);
            } else if c == '<' {
                self.switch_to(State::RCDATALessThanSign);
            } else if c == '\0' {
                self.err(ParseError::UnexpectedNullCharacter);
                self.emit_char('\u{fffd}');
                self.consume();
            } else {
                self.emit_char(c);
                self.consume();
            }
        }
    }

    pub(crate) fn st_rawtext(&mut self)
        ensures
            final(self)@ == sp_rawtext(old(self)@),
            old(self)@.inv() && !old(self)@.done && old(self)@.state == State::RAWTEXT
                ==> crate::machine::step_progress(
                old(self)@,
                final(self)@,
            ),
            !old(self)@.done ==> crate::machine::eof_step_ok(old(self)@, final(self)@),
    {
        if self.at_end() {
            self.emit_eof();
        } else {
            let c = self.current_char();
            if c == '<' {
                self.switch_to(State::RAWTEXTLessThanSign);
            } else if c == '\0' {
                self.err(ParseError::UnexpectedNullCharacter);
                self.emit_char('\u{fffd}');
                self.consume();
            } else {
                self.emit_char(c);
                self.consume();
            }
        }
    }

    pub(crate) fn st_script_data(&mut self)
        ensures
            final(self)@ == sp_script_data(old(self)@),
            old(self)@.inv() && !old(self)@.done && old(self)@.state == State::ScriptData
                ==> crate::machine::step_progress(
                old(self)@,
                final(self)@,
            ),
            !old(self)@.done ==> crate::machine::eof_step_ok(old(self)@, final(self)@),
    {
        if self.at_end() {
            self.emit_eof();
        } else {
            let c = self.current_char();
            if c == '<' {
                self.switch_to(State::ScriptDataLessThanSign);
            } else if c == '\0' {
                self.err(ParseError::UnexpectedNullCharacter);
                self.emit_char('\u{fffd}');
                self.consume();
            } else {
                self.emit_char(c);
                self.consume();
            }
        }
    }

    pub(crate) fn st_plaintext(&mut self)
        ensures
            final(self)@ == sp_plaintext(old(self)@),
            old(self)@.inv() && !old(self)@.done && old(self)@.state == State::PLAINTEXT
                ==> crate::machine::step_progress(
                old(self)@,
                final(self)@,
            ),
            !old(self)@.done ==> crate::machine::eof_step_ok(old(self)@, final(self)@),
    {
        if self.at_end() {
            self.emit_eof();
        } else {
            let c = self.current_char();
            if c == '\0' {
                self.err(ParseError::UnexpectedNullCharacter);
                self.emit_char('\u{fffd}');
                self.consume();
            } else {
                self.emit_char(c);
                self.consume();
            }
        }
    }

    pub(crate) fn st_mode_less_than(&mut self, open_state: State, back: State)
        ensures
            final(self)@ == sp_mode_less_than(old(self)@, open_state, back),
            old(self)@.inv() && !old(self)@.done ==> (final(self)@.inv()
                && final(self)@.input == old(self)@.input && old(self)@.pos
                <= final(self)@.pos && (final(self)@.done || final(self)@.pos
                > old(self)@.pos || (final(self)@.pos == old(self)@.pos
                && final(self)@.state == back))),
            !old(self)@.done ==> crate::machine::eof_step_ok(old(self)@, final(self)@),
    {
        if !self.at_end() && self.current_char() == '/' {
            self.buffer_clear();
            self.switch_to(open_state);
        } else {
            self.emit_char('<');
            self.switch_to_without_consuming(back);
        }
    }

    pub(crate) fn st_mode_end_tag_open(&mut self, name_state: State, back: State)
        ensures
            final(self)@ == sp_mode_end_tag_open(old(self)@, name_state, back),
            old(self)@.inv() && !old(self)@.done ==> (final(self)@.inv()
                && final(self)@.input == old(self)@.input && old(self)@.pos
                <= final(self)@.pos && (final(self)@.done || final(self)@.pos
                > old(self)@.pos || (final(self)@.pos == old(self)@.pos
                && (final(self)@.state == name_state || final(self)@.state == back)))),
            !old(self)@.done ==> crate::machine::eof_step_ok(old(self)@, final(self)@),
    {
        if !self.at_end() && util::alpha(self.current_char()) {
            self.start_end_tag();
            self.switch_to_without_consuming(name_state);
        } else {
            self.emit_char('<');
            self.emit_char('/');
            self.switch_to_without_consuming(back);
        }
    }

    pub(crate) fn st_mode_end_tag_name(&mut self, back: State)
        ensures
            final(self)@ == sp_mode_end_tag_name(old(self)@, back),
            old(self)@.inv() && !old(self)@.done ==> (final(self)@.inv()
                && final(self)@.input == old(self)@.input && old(self)@.pos
                <= final(self)@.pos && (final(self)@.done || final(self)@.pos
                > old(self)@.pos || (final(self)@.pos == old(self)@.pos
                && final(self)@.state == back))),
            !old(self)@.done ==> crate::machine::eof_step_ok(old(self)@, final(self)@),
    {
        if self.at_end() {
            self.emit_char('<');
            self.emit_char('/');
            self.emit_buffer_chars();
            self.switch_to_without_consuming(back);
            return ;
        }
        let c = self.current_char();
        let appropriate = self.appropriate();
        if util::ws(c) && appropriate {
            self.switch_to(State::BeforeAttributeName);
        } else if c == '/' && appropriate {
            self.switch_to(State::SelfClosingStartTag);
        } else if c == '>' && appropriate {
            self.emit_tag();
            self.switch_to(State::Data);
        } else if util::alpha(c) {
            self.append_tag_name(util::lower_char(c));
            self.buffer_push(c);
            self.consume();
        } else {
            self.emit_char('<');
            self.emit_char('/');
            self.emit_buffer_chars();
            self.switch_to_without_consuming(back);
        }
    }
}

} // verus!
