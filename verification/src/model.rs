//! The mathematical model of the tokenizer: the complete machine state as a
//! ghost value, and the elementary effects (consume, switch state, emit,
//! append) out of which every state's transition is composed.

use vstd::prelude::*;
use crate::state::State;
use crate::state::is_legal_return_state;
use crate::state::is_attr_return_state;
use crate::token::AttrM;
use crate::token::TagM;
use crate::token::DoctypeM;
use crate::token::TokenM;
use crate::token::ParseError;

verus! {

/// Whitespace as the tag grammar knows it: tab, line feed, form feed, space.
/// Carriage returns are collapsed into line feeds before tokenization.
pub open spec fn is_ws(c: char) -> bool {
    c == ' ' || c == '\t' || c == '\n' || c == '\u{0c}'
}

pub open spec fn is_upper(c: char) -> bool {
    'A' <= c && c <= 'Z'
}

pub open spec fn is_lower(c: char) -> bool {
    'a' <= c && c <= 'z'
}

pub open spec fn is_alpha(c: char) -> bool {
    is_upper(c) || is_lower(c)
}

pub open spec fn is_digit(c: char) -> bool {
    '0' <= c && c <= '9'
}

pub open spec fn is_alnum(c: char) -> bool {
    is_alpha(c) || is_digit(c)
}

pub open spec fn is_hex_digit(c: char) -> bool {
    is_digit(c) || ('a' <= c && c <= 'f') || ('A' <= c && c <= 'F')
}

/// ASCII uppercase letters folded to lowercase; everything else unchanged.
pub open spec fn to_lower(c: char) -> char {
    if is_upper(c) {
        ((c as u32) + 32) as char
    } else {
        c
    }
}

/// A single character token.
pub open spec fn mk_char_token(c: char) -> TokenM {
    TokenM::Character(c)
}

/// The character sequence as individual character tokens.
pub open spec fn chars_tokens(s: Seq<char>) -> Seq<TokenM> {
    s.map_values(|c: char| mk_char_token(c))
}

/// What the character-token sequence holds, index by index.
pub broadcast proof fn lemma_chars_tokens_facts(s: Seq<char>)
    ensures
        (#[trigger] chars_tokens(s)).len() == s.len(),
        forall|i: int| 0 <= i < s.len() ==> chars_tokens(s)[i] == TokenM::Character(s[i]),
{
    assert forall|i: int| 0 <= i < s.len() implies chars_tokens(s)[i] == TokenM::Character(
        s[i],
    ) by {
        assert(chars_tokens(s)[i] == mk_char_token(s[i]));
    }
}

/// A whole name folded to lowercase.
pub open spec fn seq_to_lower(s: Seq<char>) -> Seq<char> {
    s.map_values(|c: char| to_lower(c))
}

/// The numeric value of a hexadecimal digit.
pub open spec fn hex_value(c: char) -> u32 {
    if is_digit(c) {
        (c as u32 - 48) as u32
    } else if 'a' <= c && c <= 'f' {
        (c as u32 - 87) as u32
    } else {
        (c as u32 - 55) as u32
    }
}

/// The complete state of a tokenizer between two elementary steps: the input
/// and cursor, the active and return states, the token under construction
/// (tag, comment or doctype fields), the scratch buffer and remembered start
/// tag for the content modes, the character-reference accumulator, and the
/// two output channels (tokens and parse errors).
pub struct M {
    pub input: Seq<char>,
    pub pos: int,
    pub state: State,
    pub return_state: State,
    /// The tag under construction is a start tag (else an end tag).
    pub tag_is_start: bool,
    pub tag_name: Seq<char>,
    pub self_closing: bool,
    /// Attributes already finished on the current tag.
    pub attrs: Seq<AttrM>,
    /// The attribute currently accumulating, present when `has_attr`.
    pub attr_name: Seq<char>,
    pub attr_value: Seq<char>,
    pub has_attr: bool,
    pub comment: Seq<char>,
    pub dt_name_present: bool,
    pub dt_name: Seq<char>,
    pub dt_public_present: bool,
    pub dt_public: Seq<char>,
    pub dt_system_present: bool,
    pub dt_system: Seq<char>,
    pub dt_force_quirks: bool,
    pub buffer: Seq<char>,
    pub last_start_tag: Seq<char>,
    /// Character-reference code point accumulator, clamped at 0x110000.
    pub code: u32,
    /// Whether an enclosing-context collaborator has signalled foreign
    /// content, in which case `<![CDATA[` opens a CDATA section.
    pub allow_cdata: bool,
    pub output: Seq<TokenM>,
    pub errors: Seq<ParseError>,
    pub done: bool,
}

/// The model of a freshly constructed tokenizer on the given input.
pub open spec fn init_model(input: Seq<char>) -> M {
    M {
        input: input,
        pos: 0,
        state: State::Data,
        return_state: State::Data,
        tag_is_start: true,
        tag_name: Seq::empty(),
        self_closing: false,
        attrs: Seq::empty(),
        attr_name: Seq::empty(),
        attr_value: Seq::empty(),
        has_attr: false,
        comment: Seq::empty(),
        dt_name_present: false,
        dt_name: Seq::empty(),
        dt_public_present: false,
        dt_public: Seq::empty(),
        dt_system_present: false,
        dt_system: Seq::empty(),
        dt_force_quirks: false,
        buffer: Seq::empty(),
        last_start_tag: Seq::empty(),
        code: 0,
        allow_cdata: false,
        output: Seq::empty(),
        errors: Seq::empty(),
        done: false,
    }
}

impl M {
    /// Structural well-formedness: the cursor stays within the input, the
    /// return state is one a character reference can come from, and the code
    /// accumulator stays clamped.
    pub open spec fn inv(self) -> bool {
        &&& 0 <= self.pos <= self.input.len()
        &&& is_legal_return_state(self.return_state)
        &&& self.code <= 0x110000
    }

    /// Whether the cursor has run past the last character.
    pub open spec fn at_eof(self) -> bool {
        self.pos >= self.input.len()
    }

    /// The current input character.
    pub open spec fn cur(self) -> char {
        self.input[self.pos]
    }

    /// Advance the cursor one character.
    pub open spec fn consume(self) -> M {
        M { pos: self.pos + 1, ..self }
    }

    /// Advance the cursor `n` characters.
    pub open spec fn advance(self, n: int) -> M {
        M { pos: self.pos + n, ..self }
    }

    /// Switch state without touching the cursor (used to reconsume the
    /// current character under the new state).
    pub open spec fn to_state(self, s: State) -> M {
        M { state: s, ..self }
    }

    /// Record where the character-reference sub-machine must return.
    pub open spec fn set_return(self, s: State) -> M {
        M { return_state: s, ..self }
    }

    /// Report a recoverable parse error on the diagnostic channel.
    pub open spec fn err(self, e: ParseError) -> M {
        M { errors: self.errors.push(e), ..self }
    }

    /// Emit one character token.
    pub open spec fn emit_char(self, c: char) -> M {
        M { output: self.output.push(TokenM::Character(c)), ..self }
    }

    /// Emit the final end-of-file token and stop.
    pub open spec fn emit_eof(self) -> M {
        M { output: self.output.push(TokenM::EndOfFile), done: true, ..self }
    }

    /// Emit the accumulated comment.
    pub open spec fn emit_comment(self) -> M {
        M { output: self.output.push(TokenM::Comment(self.comment)), ..self }
    }

    /// The doctype token the accumulated fields describe.
    pub open spec fn cur_doctype(self) -> TokenM {
        TokenM::Doctype(DoctypeM {
            name: if self.dt_name_present { Some(self.dt_name) } else { None },
            public_id: if self.dt_public_present { Some(self.dt_public) } else { None },
            system_id: if self.dt_system_present { Some(self.dt_system) } else { None },
            force_quirks: self.dt_force_quirks,
        })
    }

    /// Emit the accumulated doctype.
    pub open spec fn emit_doctype(self) -> M {
        M { output: self.output.push(self.cur_doctype()), ..self }
    }

    /// The attribute list with the attribute still accumulating appended.
    pub open spec fn attrs_closed(self) -> Seq<AttrM> {
        if self.has_attr {
            self.attrs.push(AttrM { name: self.attr_name, value: self.attr_value })
        } else {
            self.attrs
        }
    }

    /// The tag token the accumulated fields describe.
    pub open spec fn cur_tag(self) -> TokenM {
        let t = TagM {
            name: self.tag_name,
            self_closing: self.self_closing,
            attributes: self.attrs_closed(),
        };
        if self.tag_is_start {
            TokenM::StartTag(t)
        } else {
            TokenM::EndTag(t)
        }
    }

    /// Emit the accumulated tag.  A start tag becomes the remembered
    /// "appropriate end tag" name; an end tag that carries attributes or a
    /// self-closing flag is reported as a parse error but emitted unchanged.
    pub open spec fn emit_tag(self) -> M {
        let m = if self.tag_is_start {
            M { last_start_tag: self.tag_name, ..self }
        } else {
            let m1 = if self.attrs_closed().len() > 0 {
                self.err(ParseError::EndTagWithAttributes)
            } else {
                self
            };
            if self.self_closing {
                m1.err(ParseError::EndTagWithTrailingSolidus)
            } else {
                m1
            }
        };
        M { output: m.output.push(self.cur_tag()), ..m }
    }

    /// Begin a fresh start-tag token.
    pub open spec fn start_start_tag(self) -> M {
        M {
            tag_is_start: true,
            tag_name: Seq::empty(),
            self_closing: false,
            attrs: Seq::empty(),
            attr_name: Seq::empty(),
            attr_value: Seq::empty(),
            has_attr: false,
            ..self
        }
    }

    /// Begin a fresh end-tag token.
    pub open spec fn start_end_tag(self) -> M {
        M {
            tag_is_start: false,
            tag_name: Seq::empty(),
            self_closing: false,
            attrs: Seq::empty(),
            attr_name: Seq::empty(),
            attr_value: Seq::empty(),
            has_attr: false,
            ..self
        }
    }

    /// Begin a fresh comment token with the given initial data.
    pub open spec fn start_comment(self, data: Seq<char>) -> M {
        M { comment: data, ..self }
    }

    /// Begin a fresh doctype token.
    pub open spec fn start_doctype(self, name_present: bool, name: Seq<char>, quirks: bool) -> M {
        M {
            dt_name_present: name_present,
            dt_name: name,
            dt_public_present: false,
            dt_public: Seq::empty(),
            dt_system_present: false,
            dt_system: Seq::empty(),
            dt_force_quirks: quirks,
            ..self
        }
    }

    pub open spec fn append_tag_name(self, c: char) -> M {
        M { tag_name: self.tag_name.push(c), ..self }
    }

    pub open spec fn append_comment(self, c: char) -> M {
        M { comment: self.comment.push(c), ..self }
    }

    pub open spec fn append_dt_name(self, c: char) -> M {
        M { dt_name: self.dt_name.push(c), ..self }
    }

    pub open spec fn set_public_empty(self) -> M {
        M { dt_public_present: true, dt_public: Seq::empty(), ..self }
    }

    pub open spec fn set_system_empty(self) -> M {
        M { dt_system_present: true, dt_system: Seq::empty(), ..self }
    }

    pub open spec fn append_public(self, c: char) -> M {
        M { dt_public: self.dt_public.push(c), ..self }
    }

    pub open spec fn append_system(self, c: char) -> M {
        M { dt_system: self.dt_system.push(c), ..self }
    }

    pub open spec fn set_quirks(self) -> M {
        M { dt_force_quirks: true, ..self }
    }

    pub open spec fn set_self_closing(self) -> M {
        M { self_closing: true, ..self }
    }

    /// Close the attribute accumulating so far (if any) and begin a new one
    /// with the given initial name and an empty value.
    pub open spec fn start_attr(self, name0: Seq<char>) -> M {
        M {
            attrs: self.attrs_closed(),
            attr_name: name0,
            attr_value: Seq::empty(),
            has_attr: true,
            ..self
        }
    }

    pub open spec fn append_attr_name(self, c: char) -> M {
        M { attr_name: self.attr_name.push(c), ..self }
    }

    pub open spec fn append_attr_value(self, c: char) -> M {
        M { attr_value: self.attr_value.push(c), ..self }
    }

    /// Whether the name just finished duplicates an earlier attribute of the
    /// same tag.  The duplicate stays in the sequence; the effective value of
    /// the name is the first occurrence's.
    pub open spec fn attr_name_is_dup(self) -> bool {
        exists|i: int| 0 <= i < self.attrs.len() && self.attrs[i].name == self.attr_name
    }

    /// On leaving the attribute-name state: report a duplicate name.
    pub open spec fn dup_check(self) -> M {
        if self.attr_name_is_dup() {
            self.err(ParseError::DuplicateAttribute)
        } else {
            self
        }
    }

    /// Reset the temporary buffer to the given contents.
    pub open spec fn buffer_reset(self, s: Seq<char>) -> M {
        M { buffer: s, ..self }
    }

    /// Append several characters to the temporary buffer.
    pub open spec fn buffer_append(self, s: Seq<char>) -> M {
        M { buffer: self.buffer + s, ..self }
    }

    pub open spec fn buffer_push(self, c: char) -> M {
        M { buffer: self.buffer.push(c), ..self }
    }

    pub open spec fn set_code(self, v: u32) -> M {
        M { code: v, ..self }
    }

    /// Flush the code points "consumed as a character reference": into the
    /// attribute value when the reference was entered from an attribute-value
    /// state, else as individual character tokens.
    pub open spec fn flush_buffer(self) -> M {
        if is_attr_return_state(self.return_state) {
            M { attr_value: self.attr_value + self.buffer, ..self }
        } else {
            M { output: self.output + chars_tokens(self.buffer), ..self }
        }
    }

    /// Emit the temporary buffer's characters individually as character
    /// tokens (the abandoned-end-tag recovery of the content modes).
    pub open spec fn emit_buffer_chars(self) -> M {
        M { output: self.output + chars_tokens(self.buffer), ..self }
    }

    /// Append one resolved character: into the attribute value in attribute
    /// context, else as a character token (used by the ambiguous-ampersand
    /// recovery).
    pub open spec fn flush_one(self, c: char) -> M {
        if is_attr_return_state(self.return_state) {
            self.append_attr_value(c)
        } else {
            self.emit_char(c)
        }
    }

    /// Whether the end tag under construction is the "appropriate" one: its
    /// name matches the most recently emitted (or externally set) start tag.
    pub open spec fn is_appropriate_end_tag(self) -> bool {
        self.tag_name == self.last_start_tag
    }
}

/// Whether `pat` occurs in the input `off` characters past the cursor.
pub open spec fn matches_at(m: M, off: int, pat: Seq<char>) -> bool {
    &&& m.pos + off + pat.len() <= m.input.len()
    &&& m.input.subrange(m.pos + off, m.pos + off + pat.len()) == pat
}

/// Whether `pat` (given lowercase) occurs `off` characters past the cursor
/// under ASCII case folding.
pub open spec fn matches_at_ci(m: M, off: int, pat: Seq<char>) -> bool {
    &&& m.pos + off + pat.len() <= m.input.len()
    &&& seq_to_lower(m.input.subrange(m.pos + off, m.pos + off + pat.len())) == pat
}

/// A measure on machine states that strictly decreases on every transition
/// that does not consume a character and does not finish the run: reconsume
/// chains always descend toward a consuming state.
pub open spec fn rank(m: M) -> int {
    match m.state {
        State::TagOpen => 6,
        State::EndTagOpen => 6,
        State::DOCTYPE => 6,
        State::MarkupDeclarationOpen => 5,
        State::SelfClosingStartTag => 5,
        State::AfterAttributeValueQuoted => 5,
        State::BeforeAttributeName => 4,
        State::AttributeName => if m.at_eof() || is_ws(m.cur()) || m.cur() == '/' || m.cur()
            == '>' {
            3
        } else {
            1
        },
        State::AfterAttributeName => 2,
        State::BeforeAttributeValue => 1,
        State::BeforeDOCTYPEName => 5,
        State::AfterDOCTYPEName => 5,
        State::AfterDOCTYPEPublicKeyword => 5,
        State::BeforeDOCTYPEPublicIdentifier => 5,
        State::AfterDOCTYPEPublicIdentifier => 5,
        State::BetweenDOCTYPEPublicAndSystemIdentifiers => 5,
        State::AfterDOCTYPESystemKeyword => 5,
        State::BeforeDOCTYPESystemIdentifier => 5,
        State::AfterDOCTYPESystemIdentifier => 5,
        State::BogusDOCTYPE => 1,
        State::CommentStart => 2,
        State::CommentStartDash => 2,
        State::CommentLessThanSign => 2,
        State::CommentLessThanSignBang => 2,
        State::CommentLessThanSignBangDash => 2,
        State::CommentLessThanSignBangDashDash => 3,
        State::CommentEndDash => 1,
        State::CommentEnd => 2,
        State::CommentEndBang => 1,
        State::RCDATALessThanSign => 3,
        State::RAWTEXTLessThanSign => 3,
        State::ScriptDataLessThanSign => 3,
        State::ScriptDataEscapedLessThanSign => 3,
        State::RCDATAEndTagOpen => 2,
        State::RAWTEXTEndTagOpen => 2,
        State::ScriptDataEndTagOpen => 2,
        State::ScriptDataEscapedEndTagOpen => 2,
        State::RCDATAEndTagName => 1,
        State::RAWTEXTEndTagName => 1,
        State::ScriptDataEndTagName => 1,
        State::ScriptDataEscapedEndTagName => 1,
        State::ScriptDataEscapeStart => 1,
        State::ScriptDataEscapeStartDash => 1,
        State::ScriptDataDoubleEscapeStart => 2,
        State::ScriptDataDoubleEscapedLessThanSign => 1,
        State::ScriptDataDoubleEscapeEnd => 1,
        State::CDATASectionBracket => 1,
        State::CDATASectionEnd => 2,
        State::CharacterReference => 9,
        State::NamedCharacterReference => 8,
        State::NumericCharacterReference => 8,
        State::AmbiguousAmpersand => 7,
        State::HexadecimalCharacterReferenceStart => 7,
        State::DecimalCharacterReferenceStart => 7,
        State::HexadecimalCharacterReference => 6,
        State::DecimalCharacterReference => 6,
        State::NumericCharacterReferenceEnd => 5,
        _ => 0,
    }
}

} // verus!
