//! The character-reference sub-machine: named references by longest-prefix
//! match (with the ambiguous-ampersand rule inside attribute values),
//! decimal and hexadecimal numeric references with the legacy control-range
//! remapping, and the flush back into the context recorded in the return
//! state.

use vstd::prelude::*;
use crate::state::State;
use crate::state::is_attr_return_state;
use crate::token::ParseError;
use crate::model::M;
use crate::model::is_alnum;
use crate::model::is_digit;
use crate::model::is_hex_digit;
use crate::model::hex_value;
use crate::entities::entity_match;
use crate::tokenizer::Tokenizer;
use crate::trusted::char_from_u32;
use crate::util;

verus! {

broadcast use crate::model::lemma_chars_tokens_facts;

pub open spec fn is_surrogate_code(n: u32) -> bool {
    0xD800 <= n && n <= 0xDFFF
}

/// The code points the specification permanently reserves as noncharacters.
pub open spec fn is_noncharacter_code(n: u32) -> bool {
    (0xFDD0 <= n && n <= 0xFDEF) || n % 0x10000 == 0xFFFE || n % 0x10000 == 0xFFFF
}

/// C0 controls, DEL and C1 controls.
pub open spec fn is_control_code(n: u32) -> bool {
    n <= 0x1F || n == 0x7F || (0x80 <= n && n <= 0x9F)
}

pub open spec fn is_ascii_ws_code(n: u32) -> bool {
    n == 0x09 || n == 0x0A || n == 0x0C || n == 0x20
}

/// The legacy remapping of the 0x80-0x9F control range (the historical
/// single-byte layout those documents were written in); code points the
/// table leaves out are kept as they are.
pub open spec fn remap_c1(n: u32) -> u32 {
    if n == 0x80 {
        0x20AC
    } else if n == 0x82 {
        0x201A
    } else if n == 0x83 {
        0x0192
    } else if n == 0x84 {
        0x201E
    } else if n == 0x85 {
        0x2026
    } else if n == 0x86 {
        0x2020
    } else if n == 0x87 {
        0x2021
    } else if n == 0x88 {
        0x02C6
    } else if n == 0x89 {
        0x2030
    } else if n == 0x8A {
        0x0160
    } else if n == 0x8B {
        0x2039
    } else if n == 0x8C {
        0x0152
    } else if n == 0x8E {
        0x017D
    } else if n == 0x91 {
        0x2018
    } else if n == 0x92 {
        0x2019
    } else if n == 0x93 {
        0x201C
    } else if n == 0x94 {
        0x201D
    } else if n == 0x95 {
        0x2022
    } else if n == 0x96 {
        0x2013
    } else if n == 0x97 {
        0x2014
    } else if n == 0x98 {
        0x02DC
    } else if n == 0x99 {
        0x2122
    } else if n == 0x9A {
        0x0161
    } else if n == 0x9B {
        0x203A
    } else if n == 0x9C {
        0x0153
    } else if n == 0x9E {
        0x017E
    } else if n == 0x9F {
        0x0178
    } else {
        n
    }
}

/// One more digit folded into the accumulator, clamped just above the
/// Unicode range so that overlong references stay marked out of range.
pub open spec fn fold_digit(code: u32, base: u32, d: u32) -> u32 {
    if code > 0x10FFFF {
        0x110000
    } else if code * base + d > 0x10FFFF {
        0x110000
    } else {
        (code * base + d) as u32
    }
}

/// The scalar value a finished numeric reference resolves to: U+FFFD for
/// zero, out-of-range, surrogate and noncharacter codes, the legacy
/// remapping for the 0x80-0x9F range, the code itself otherwise.
pub open spec fn numeric_end_scalar(n: u32) -> u32 {
    if n == 0 {
        0xFFFD
    } else if n > 0x10FFFF {
        0xFFFD
    } else if is_surrogate_code(n) {
        0xFFFD
    } else if is_noncharacter_code(n) {
        0xFFFD
    } else {
        remap_c1(n)
    }
}

/// The parse error a finished numeric reference reports, if any.
pub open spec fn numeric_end_errs(m: M) -> M {
    let n = m.code;
    if n == 0 {
        m.err(ParseError::NullCharacterReference)
    } else if n > 0x10FFFF {
        m.err(ParseError::CharacterReferenceOutsideUnicodeRange)
    } else if is_surrogate_code(n) {
        m.err(ParseError::SurrogateCharacterReference)
    } else if is_noncharacter_code(n) {
        m.err(ParseError::NoncharacterCharacterReference)
    } else if n == 0x0D || (is_control_code(n) && !is_ascii_ws_code(n)) {
        m.err(ParseError::ControlCharacterReference)
    } else {
        m
    }
}

pub open spec fn sp_character_reference(m: M) -> M {
    if m.at_eof() {
        m.flush_buffer().to_state(m.return_state)
    } else {
        let c = m.cur();
        if is_alnum(c) {
            m.to_state(State::NamedCharacterReference)
        } else if c == '#' {
            m.buffer_push(c).to_state(State::NumericCharacterReference).consume()
        } else {
            m.flush_buffer().to_state(m.return_state)
        }
    }
}

pub open spec fn sp_named_character_reference(m: M) -> M {
    match entity_match(m) {
        Some(hit) => {
            let n = hit.0;
            let ch = hit.1;
            let semicolonless = m.input[m.pos + n - 1] != ';';
            if is_attr_return_state(m.return_state) && semicolonless && m.pos + n
                < m.input.len() && (m.input[m.pos + n] == '=' || is_alnum(m.input[m.pos + n])) {
                m.buffer_append(m.input.subrange(m.pos, m.pos + n)).flush_buffer().to_state(
                    m.return_state,
                ).advance(n)
            } else {
                let m1 = if semicolonless {
                    m.err(ParseError::MissingSemicolonAfterCharacterReference)
                } else {
                    m
                };
                m1.buffer_reset(seq![ch]).flush_buffer().to_state(m.return_state).advance(n)
            }
        },
        None => m.flush_buffer().to_state(State::AmbiguousAmpersand),
    }
}

pub open spec fn sp_ambiguous_ampersand(m: M) -> M {
    if m.at_eof() {
        m.to_state(m.return_state)
    } else {
        let c = m.cur();
        if is_alnum(c) {
            m.flush_one(c).consume()
        } else if c == ';' {
            m.err(ParseError::UnknownNamedCharacterReference).to_state(m.return_state)
        } else {
            m.to_state(m.return_state)
        }
    }
}

pub open spec fn sp_numeric_character_reference(m: M) -> M {
    if !m.at_eof() && (m.cur() == 'x' || m.cur() == 'X') {
        m.set_code(0).buffer_push(m.cur()).to_state(
            State::HexadecimalCharacterReferenceStart,
        ).consume()
    } else {
        m.set_code(0).to_state(State::DecimalCharacterReferenceStart)
    }
}

pub open spec fn sp_hexadecimal_character_reference_start(m: M) -> M {
    if !m.at_eof() && is_hex_digit(m.cur()) {
        m.to_state(State::HexadecimalCharacterReference)
    } else {
        m.err(ParseError::AbsenceOfDigits).flush_buffer().to_state(m.return_state)
    }
}

pub open spec fn sp_decimal_character_reference_start(m: M) -> M {
    if !m.at_eof() && is_digit(m.cur()) {
        m.to_state(State::DecimalCharacterReference)
    } else {
        m.err(ParseError::AbsenceOfDigits).flush_buffer().to_state(m.return_state)
    }
}

pub open spec fn sp_hexadecimal_character_reference(m: M) -> M {
    if m.at_eof() {
        m.err(ParseError::MissingSemicolonAfterCharacterReference).to_state(
            State::NumericCharacterReferenceEnd,
        )
    } else {
        let c = m.cur();
        if is_hex_digit(c) {
            m.set_code(fold_digit(m.code, 16, hex_value(c))).consume()
        } else if c == ';' {
            m.to_state(State::NumericCharacterReferenceEnd).consume()
        } else {
            m.err(ParseError::MissingSemicolonAfterCharacterReference).to_state(
                State::NumericCharacterReferenceEnd,
            )
        }
    }
}

pub open spec fn sp_decimal_character_reference(m: M) -> M {
    if m.at_eof() {
        m.err(ParseError::MissingSemicolonAfterCharacterReference).to_state(
            State::NumericCharacterReferenceEnd,
        )
    } else {
        let c = m.cur();
        if is_digit(c) {
            m.set_code(fold_digit(m.code, 10, hex_value(c))).consume()
        } else if c == ';' {
            m.to_state(State::NumericCharacterReferenceEnd).consume()
        } else {
            m.err(ParseError::MissingSemicolonAfterCharacterReference).to_state(
                State::NumericCharacterReferenceEnd,
            )
        }
    }
}

pub open spec fn sp_numeric_character_reference_end(m: M) -> M {
    numeric_end_errs(m).buffer_reset(seq![(numeric_end_scalar(m.code) as char)]).flush_buffer(
    ).to_state(m.return_state)
}

impl Tokenizer {
    pub(crate) fn st_character_reference(&mut self)
        ensures
            final(self)@ == sp_character_reference(old(self)@),
            old(self)@.inv() && !old(self)@.done && old(self)@.state == State::CharacterReference
                ==> crate::machine::step_progress(
                old(self)@,
                final(self)@,
            ),
            !old(self)@.done ==> crate::machine::eof_step_ok(old(self)@, final(self)@),
    {
        if self.at_end() {
            let back = self.get_return();
            self.flush_buffer();
            self.switch_to_without_consuming(back);
            return ;
        }
        let c = self.current_char();
        if util::alnum(c) {
            self.switch_to_without_consuming(State::NamedCharacterReference);
        } else if c == '#' {
            self.buffer_push(c);
            self.switch_to(State::NumericCharacterReference);
        } else {
            let back = self.get_return();
            self.flush_buffer();
            self.switch_to_without_consuming(back);
        }
    }

    #[verifier::rlimit(100)]
    #[verifier::spinoff_prover]
    pub(crate) fn st_named_character_reference(&mut self)
        ensures
            final(self)@ == sp_named_character_reference(old(self)@),
            old(self)@.inv() && !old(self)@.done && old(self)@.state == State::NamedCharacterReference
                ==> crate::machine::step_progress(
                old(self)@,
                final(self)@,
            ),
            !old(self)@.done ==> crate::machine::eof_step_ok(old(self)@, final(self)@),
    {
        match self.named_entity_lookup() {
            Some(hit) => {
                let n = hit.0;
                let ch = hit.1;
                proof {
                    crate::entities::lemma_entity_match_bounds(self@, n as int, ch);
                }
                let checks = self.named_historical_check(n);
                let semicolonless = checks.0;
                let historical = self.in_attr_context() && semicolonless && checks.1;
                if historical {
                    let back = self.get_return();
                    self.buffer_append_input(n);
                    self.flush_buffer();
                    self.switch_to_without_consuming(back);
                    self.advance_by(n);
                } else {
                    if semicolonless {
                        self.err(ParseError::MissingSemicolonAfterCharacterReference);
                    }
                    let back = self.get_return();
                    self.buffer_clear();
                    self.buffer_push(ch);
                    proof {
                        assert(self@.buffer =~= seq![ch]);
                    }
                    self.flush_buffer();
                    self.switch_to_without_consuming(back);
                    self.advance_by(n);
                }
            },
            None => {
                self.flush_buffer();
                self.switch_to_without_consuming(State::AmbiguousAmpersand);
            },
        }
    }

    pub(crate) fn st_ambiguous_ampersand(&mut self)
        ensures
            final(self)@ == sp_ambiguous_ampersand(old(self)@),
            old(self)@.inv() && !old(self)@.done && old(self)@.state == State::AmbiguousAmpersand
                ==> crate::machine::step_progress(
                old(self)@,
                final(self)@,
            ),
            !old(self)@.done ==> crate::machine::eof_step_ok(old(self)@, final(self)@),
    {
        if self.at_end() {
            let back = self.get_return();
            self.switch_to_without_consuming(back);
            return ;
        }
        let c = self.current_char();
        if util::alnum(c) {
            self.flush_one(c);
            self.consume();
        } else if c == ';' {
            self.err(ParseError::UnknownNamedCharacterReference);
            let back = self.get_return();
            self.switch_to_without_consuming(back);
        } else {
            let back = self.get_return();
            self.switch_to_without_consuming(back);
        }
    }

    pub(crate) fn st_numeric_character_reference(&mut self)
        ensures
            final(self)@ == sp_numeric_character_reference(old(self)@),
            old(self)@.inv() && !old(self)@.done && old(self)@.state == State::NumericCharacterReference
                ==> crate::machine::step_progress(
                old(self)@,
                final(self)@,
            ),
            !old(self)@.done ==> crate::machine::eof_step_ok(old(self)@, final(self)@),
    {
        if !self.at_end() && (self.current_char() == 'x' || self.current_char() == 'X') {
            let c = self.current_char();
            self.set_code(0);
            self.buffer_push(c);
            self.switch_to(State::HexadecimalCharacterReferenceStart);
        } else {
            self.set_code(0);
            self.switch_to_without_consuming(State::DecimalCharacterReferenceStart);
        }
    }

    pub(crate) fn st_hexadecimal_character_reference_start(&mut self)
        ensures
            final(self)@ == sp_hexadecimal_character_reference_start(old(self)@),
            old(self)@.inv() && !old(self)@.done && old(self)@.state == State::HexadecimalCharacterReferenceStart
                ==> crate::machine::step_progress(
                old(self)@,
                final(self)@,
            ),
            !old(self)@.done ==> crate::machine::eof_step_ok(old(self)@, final(self)@),
    {
        if !self.at_end() && util::hex_digit(self.current_char()) {
            self.switch_to_without_consuming(State::HexadecimalCharacterReference);
        } else {
            self.err(ParseError::AbsenceOfDigits);
            let back = self.get_return();
            self.flush_buffer();
            self.switch_to_without_consuming(back);
        }
    }

    pub(crate) fn st_decimal_character_reference_start(&mut self)
        ensures
            final(self)@ == sp_decimal_character_reference_start(old(self)@),
            old(self)@.inv() && !old(self)@.done && old(self)@.state == State::DecimalCharacterReferenceStart
                ==> crate::machine::step_progress(
                old(self)@,
                final(self)@,
            ),
            !old(self)@.done ==> crate::machine::eof_step_ok(old(self)@, final(self)@),
    {
        if !self.at_end() && util::digit(self.current_char()) {
            self.switch_to_without_consuming(State::DecimalCharacterReference);
        } else {
            self.err(ParseError::AbsenceOfDigits);
            let back = self.get_return();
            self.flush_buffer();
            self.switch_to_without_consuming(back);
        }
    }

    pub(crate) fn st_hexadecimal_character_reference(&mut self)
        ensures
            final(self)@ == sp_hexadecimal_character_reference(old(self)@),
            old(self)@.inv() && !old(self)@.done && old(self)@.state == State::HexadecimalCharacterReference
                ==> crate::machine::step_progress(
                old(self)@,
                final(self)@,
            ),
            !old(self)@.done ==> crate::machine::eof_step_ok(old(self)@, final(self)@),
    {
        if self.at_end() {
            self.err(ParseError::MissingSemicolonAfterCharacterReference);
            self.switch_to_without_consuming(State::NumericCharacterReferenceEnd);
            return ;
        }
        let c = self.current_char();
        if util::hex_digit(c) {
            let d = util::hex_digit_value(c);
            let code = self.get_code();
            let folded: u32 = if code > 0x10FFFF {
                0x110000
            } else if code * 16 + d > 0x10FFFF {
                0x110000
            } else {
                code * 16 + d
            };
            self.set_code(folded);
            self.consume();
        } else if c == ';' {
            self.switch_to(State::NumericCharacterReferenceEnd);
        } else {
            self.err(ParseError::MissingSemicolonAfterCharacterReference);
            self.switch_to_without_consuming(State::NumericCharacterReferenceEnd);
        }
    }

    pub(crate) fn st_decimal_character_reference(&mut self)
        ensures
            final(self)@ == sp_decimal_character_reference(old(self)@),
            old(self)@.inv() && !old(self)@.done && old(self)@.state == State::DecimalCharacterReference
                ==> crate::machine::step_progress(
                old(self)@,
                final(self)@,
            ),
            !old(self)@.done ==> crate::machine::eof_step_ok(old(self)@, final(self)@),
    {
        if self.at_end() {
            self.err(ParseError::MissingSemicolonAfterCharacterReference);
            self.switch_to_without_consuming(State::NumericCharacterReferenceEnd);
            return ;
        }
        let c = self.current_char();
        if util::digit(c) {
            let d = util::hex_digit_value(c);
            let code = self.get_code();
            let folded: u32 = if code > 0x10FFFF {
                0x110000
            } else if code * 10 + d > 0x10FFFF {
                0x110000
            } else {
                code * 10 + d
            };
            self.set_code(folded);
            self.consume();
        } else if c == ';' {
            self.switch_to(State::NumericCharacterReferenceEnd);
        } else {
            self.err(ParseError::MissingSemicolonAfterCharacterReference);
            self.switch_to_without_consuming(State::NumericCharacterReferenceEnd);
        }
    }

    #[verifier::rlimit(100)]
    #[verifier::spinoff_prover]
    pub(crate) fn st_numeric_character_reference_end(&mut self)
        ensures
            final(self)@ == sp_numeric_character_reference_end(old(self)@),
            old(self)@.inv() && !old(self)@.done && old(self)@.state == State::NumericCharacterReferenceEnd
                ==> crate::machine::step_progress(
                old(self)@,
                final(self)@,
            ),
            !old(self)@.done ==> crate::machine::eof_step_ok(old(self)@, final(self)@),
    {
        let code = self.get_code();
        if code == 0 {
            self.err(ParseError::NullCharacterReference);
        } else if code > 0x10FFFF {
            self.err(ParseError::CharacterReferenceOutsideUnicodeRange);
        } else if 0xD800 <= code && code <= 0xDFFF {
            self.err(ParseError::SurrogateCharacterReference);
        } else if (0xFDD0 <= code && code <= 0xFDEF) || code % 0x10000 == 0xFFFE || code
            % 0x10000 == 0xFFFF {
            self.err(ParseError::NoncharacterCharacterReference);
        } else if code == 0x0D || ((code <= 0x1F || code == 0x7F || (0x80 <= code && code
            <= 0x9F)) && !(code == 0x09 || code == 0x0A || code == 0x0C || code == 0x20)) {
            self.err(ParseError::ControlCharacterReference);
        }
        let scalar = numeric_scalar_exec(code);
        proof {
            assert(scalar < 0xD800 || (0xDFFF < scalar && scalar <= 0x10FFFF));
        }
        let ch = match char_from_u32(scalar) {
            Some(ch) => ch,
            None => vstd::pervasive::unreached(),
        };
        let back = self.get_return();
        self.buffer_clear();
        self.buffer_push(ch);
        proof {
            assert(self@.buffer =~= seq![ch]);
        }
        self.flush_buffer();
        self.switch_to_without_consuming(back);
    }
}

/// Executable twin of [`numeric_end_scalar`].
pub(crate) fn numeric_scalar_exec(n: u32) -> (r: u32)
    ensures
        r == numeric_end_scalar(n),
{
    if n == 0 {
        0xFFFD
    } else if n > 0x10FFFF {
        0xFFFD
    } else if 0xD800 <= n && n <= 0xDFFF {
        0xFFFD
    } else if (0xFDD0 <= n && n <= 0xFDEF) || n % 0x10000 == 0xFFFE || n % 0x10000 == 0xFFFF {
        0xFFFD
    } else {
        remap_c1_exec(n)
    }
}

/// Executable twin of [`remap_c1`].
pub(crate) fn remap_c1_exec(n: u32) -> (r: u32)
    ensures
        r == remap_c1(n),
{
    match n {
        0x80 => 0x20AC,
        0x82 => 0x201A,
        0x83 => 0x0192,
        0x84 => 0x201E,
        0x85 => 0x2026,
        0x86 => 0x2020,
        0x87 => 0x2021,
        0x88 => 0x02C6,
        0x89 => 0x2030,
        0x8A => 0x0160,
        0x8B => 0x2039,
        0x8C => 0x0152,
        0x8E => 0x017D,
        0x91 => 0x2018,
        0x92 => 0x2019,
        0x93 => 0x201C,
        0x94 => 0x201D,
        0x95 => 0x2022,
        0x96 => 0x2013,
        0x97 => 0x2014,
        0x98 => 0x02DC,
        0x99 => 0x2122,
        0x9A => 0x0161,
        0x9B => 0x203A,
        0x9C => 0x0153,
        0x9E => 0x017E,
        0x9F => 0x0178,
        _ => n,
    }
}

} // verus!
