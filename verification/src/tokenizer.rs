//! The tokenizer instance: the machine state as executable data, its view
//! onto the model, and the elementary operations each proved to effect
//! exactly the model's corresponding transition.

use vstd::prelude::*;
use crate::state::State;
use crate::state::is_attr_return_state;
use crate::token::Attribute;
use crate::token::Tag;
use crate::token::DOCTYPE;
use crate::token::Token;
use crate::token::TokenM;
use crate::token::AttrM;
use crate::token::TagM;
use crate::token::ParseError;
use crate::model::M;
use crate::model::init_model;
use crate::trusted::string_to_chars;
use crate::trusted::chars_to_string;
use crate::util::chars_eq;
use crate::util::clone_chars;

verus! {

/// An attribute still accumulating, character by character.
pub(crate) struct AttrBuf {
    pub name: Vec<char>,
    pub value: Vec<char>,
}

impl View for AttrBuf {
    type V = AttrM;

    closed spec fn view(&self) -> AttrM {
        AttrM { name: self.name@, value: self.value@ }
    }
}

impl DeepView for AttrBuf {
    type V = AttrM;

    closed spec fn deep_view(&self) -> AttrM {
        self.view()
    }
}

/// Pushing onto a vector pushes the element's model onto the vector's model.
pub(crate) proof fn lemma_deep_view_push<T: DeepView>(v1: Vec<T>, v2: Vec<T>, t: T)
    requires
        v2@ == v1@.push(t),
    ensures
        v2.deep_view() == v1.deep_view().push(t.deep_view()),
{
    assert(v2.deep_view() =~= v1.deep_view().push(t.deep_view()));
}

/// The HTML tokenizer: consumes a decoded character sequence and accumulates
/// the emitted token stream and a parse-error diagnostic channel.  Its view
/// is the complete mathematical machine state [`M`].
pub struct Tokenizer {
    pub(crate) input: Vec<char>,
    pub(crate) pos: usize,
    pub(crate) current_state: State,
    pub(crate) return_state: State,
    pub(crate) tag_is_start: bool,
    pub(crate) tag_name: Vec<char>,
    pub(crate) self_closing: bool,
    pub(crate) attrs: Vec<AttrBuf>,
    pub(crate) attr_name: Vec<char>,
    pub(crate) attr_value: Vec<char>,
    pub(crate) has_attr: bool,
    pub(crate) comment: Vec<char>,
    pub(crate) dt_name_present: bool,
    pub(crate) dt_name: Vec<char>,
    pub(crate) dt_public_present: bool,
    pub(crate) dt_public: Vec<char>,
    pub(crate) dt_system_present: bool,
    pub(crate) dt_system: Vec<char>,
    pub(crate) dt_force_quirks: bool,
    pub(crate) buffer: Vec<char>,
    pub(crate) last_start_tag: Vec<char>,
    pub(crate) code: u32,
    pub(crate) allow_cdata: bool,
    pub(crate) output: Vec<Token>,
    pub(crate) errors: Vec<ParseError>,
    pub(crate) done: bool,
}

impl View for Tokenizer {
    type V = M;

    closed spec fn view(&self) -> M {
        M {
            input: self.input@,
            pos: self.pos as int,
            state: self.current_state,
            return_state: self.return_state,
            tag_is_start: self.tag_is_start,
            tag_name: self.tag_name@,
            self_closing: self.self_closing,
            attrs: self.attrs.deep_view(),
            attr_name: self.attr_name@,
            attr_value: self.attr_value@,
            has_attr: self.has_attr,
            comment: self.comment@,
            dt_name_present: self.dt_name_present,
            dt_name: self.dt_name@,
            dt_public_present: self.dt_public_present,
            dt_public: self.dt_public@,
            dt_system_present: self.dt_system_present,
            dt_system: self.dt_system@,
            dt_force_quirks: self.dt_force_quirks,
            buffer: self.buffer@,
            last_start_tag: self.last_start_tag@,
            code: self.code,
            allow_cdata: self.allow_cdata,
            output: self.output.deep_view(),
            errors: self.errors@,
            done: self.done,
        }
    }
}

impl Tokenizer {
    /// A fresh tokenizer over the given input, in the `Data` state.  The
    /// input is taken as already decoded and with line endings normalized
    /// (CR and CRLF collapsed to LF) by the caller.
    pub fn new(input: String) -> (t: Self)
        ensures
            t@ == init_model(input@),
    {
        let chars = string_to_chars(input.as_str());
        let t = Tokenizer {
            input: chars,
            pos: 0,
            current_state: State::Data,
            return_state: State::Data,
            tag_is_start: true,
            tag_name: Vec::new(),
            self_closing: false,
            attrs: Vec::new(),
            attr_name: Vec::new(),
            attr_value: Vec::new(),
            has_attr: false,
            comment: Vec::new(),
            dt_name_present: false,
            dt_name: Vec::new(),
            dt_public_present: false,
            dt_public: Vec::new(),
            dt_system_present: false,
            dt_system: Vec::new(),
            dt_force_quirks: false,
            buffer: Vec::new(),
            last_start_tag: Vec::new(),
            code: 0,
            allow_cdata: false,
            output: Vec::new(),
            errors: Vec::new(),
            done: false,
        };
        proof {
            assert(t.attrs.deep_view() =~= Seq::<AttrM>::empty());
            assert(t.output.deep_view() =~= Seq::<TokenM>::empty());
        }
        t
    }

    /// The tokens emitted so far, in emission order.
    pub fn tokens(&self) -> (r: &Vec<Token>)
        ensures
            r.deep_view() == self@.output,
    {
        &self.output
    }

    /// The recoverable parse errors reported so far.  This channel is
    /// diagnostic only: the token stream is produced regardless.
    pub fn parse_errors(&self) -> (r: &Vec<ParseError>)
        ensures
            r@ == self@.errors,
    {
        &self.errors
    }

    /// Whether the run has finished (the end-of-file token is out).
    pub fn is_done(&self) -> (b: bool)
        ensures
            b == self@.done,
    {
        self.done
    }

    /// The machine's current state.
    pub fn state(&self) -> (s: State)
        ensures
            s == self@.state,
    {
        self.current_state
    }

    /// Whether the cursor has run past the last character.
    pub(crate) fn at_end(&self) -> (b: bool)
        ensures
            b == self@.at_eof(),
    {
        self.pos >= self.input.len()
    }

    pub(crate) fn get_code(&self) -> (r: u32)
        ensures
            r == self@.code,
    {
        self.code
    }

    /// The input's length in characters.
    pub(crate) fn input_len(&self) -> (n: usize)
        ensures
            n == self@.input.len(),
    {
        proof {
            vstd::std_specs::vec::axiom_spec_len(&self.input);
        }
        self.input.len()
    }

    /// The input character at an absolute index.
    pub(crate) fn char_at(&self, i: usize) -> (c: char)
        requires
            i < self@.input.len(),
        ensures
            c == self@.input[i as int],
    {
        self.input[i]
    }

    /// For a named reference matched over `n` characters at the cursor:
    /// whether it lacks its closing semicolon, and whether the character
    /// after the match is `=` or alphanumeric (the historical rule that
    /// keeps such text literal inside attribute values).
    pub(crate) fn named_historical_check(&self, n: usize) -> (r: (bool, bool))
        requires
            1 <= n,
            self@.pos + n <= self@.input.len(),
        ensures
            r.0 == (self@.input[self@.pos + n - 1] != ';'),
            r.1 == (self@.pos + n < self@.input.len() && (self@.input[self@.pos + n] == '='
                || crate::model::is_alnum(self@.input[self@.pos + n]))),
    {
        proof {
            vstd::std_specs::vec::axiom_spec_len(&self.input);
        }
        let semicolonless = self.input[self.pos + n - 1] != ';';
        let within = self.pos + n < self.input.len();
        let follow = within && {
            let after = self.input[self.pos + n];
            after == '=' || crate::util::alnum(after)
        };
        (semicolonless, follow)
    }

    /// Where the character-reference sub-machine will return.
    pub(crate) fn get_return(&self) -> (s: State)
        ensures
            s == self@.return_state,
    {
        self.return_state
    }

    /// Whether the active character reference came from an attribute value.
    pub(crate) fn in_attr_context(&self) -> (b: bool)
        ensures
            b == is_attr_return_state(self@.return_state),
    {
        is_attr_return(self.return_state)
    }

    pub(crate) fn cdata_allowed(&self) -> (b: bool)
        ensures
            b == self@.allow_cdata,
    {
        self.allow_cdata
    }

    /// Tree construction switches the tokenizer into a content state (for
    /// example `RCDATA` after `<textarea>`); this is that entry point.
    pub fn set_state(&mut self, s: State)
        ensures
            final(self)@ == old(self)@.to_state(s),
    {
        self.current_state = s;
    }

    /// Tree construction names the element whose content mode is active, so
    /// that the tokenizer can recognize the appropriate end tag.
    pub fn set_last_start_tag_name(&mut self, name: &str)
        ensures
            final(self)@ == (M { last_start_tag: name@, ..old(self)@ }),
    {
        self.last_start_tag = string_to_chars(name);
    }

    /// Tree construction signals foreign content, where `<![CDATA[` opens a
    /// CDATA section instead of a bogus comment.
    pub fn set_foreign_content(&mut self, allowed: bool)
        ensures
            final(self)@ == (M { allow_cdata: allowed, ..old(self)@ }),
    {
        self.allow_cdata = allowed;
    }

    /// The character under the cursor.
    pub fn current_char(&self) -> (c: char)
        requires
            self@.pos < self@.input.len(),
        ensures
            c == self@.cur(),
    {
        self.input[self.pos]
    }

    /// Switch state and consume the current character.
    pub fn switch_to(&mut self, s: State)
        requires
            old(self)@.pos < old(self)@.input.len(),
        ensures
            final(self)@ == old(self)@.to_state(s).consume(),
    {
        proof {
            vstd::std_specs::vec::axiom_spec_len(&self.input);
        }
        self.current_state = s;
        self.pos = self.pos + 1;
    }

    /// Switch state and leave the cursor alone, so the same character is
    /// reconsumed under the new state.
    pub fn switch_to_without_consuming(&mut self, s: State)
        ensures
            final(self)@ == old(self)@.to_state(s),
    {
        self.current_state = s;
    }

    /// Whether the characters after the current one begin with `string`.
    pub fn next_chars(&self, string: &str) -> (r: bool)
        requires
            self@.pos < self@.input.len(),
        ensures
            r == crate::model::matches_at(self@, 1, string@),
    {
        proof {
            vstd::std_specs::vec::axiom_spec_len(&self.input);
        }
        let pat = string_to_chars(string);
        self.lookahead(1, &pat)
    }

    /// Advance the cursor `n` characters.
    pub fn advance_by(&mut self, n: usize)
        requires
            old(self)@.pos + n <= old(self)@.input.len(),
        ensures
            final(self)@ == old(self)@.advance(n as int),
    {
        proof {
            vstd::std_specs::vec::axiom_spec_len(&self.input);
        }
        self.pos = self.pos + n;
    }

    /// Consume the current character when `condition` holds.
    pub fn consume_if(&mut self, condition: bool)
        requires
            condition ==> old(self)@.pos < old(self)@.input.len(),
        ensures
            final(self)@ == if condition {
                old(self)@.consume()
            } else {
                old(self)@
            },
    {
        proof {
            vstd::std_specs::vec::axiom_spec_len(&self.input);
        }
        if condition {
            self.pos = self.pos + 1;
        }
    }

    /// Emit the character under the cursor as a `Character` token and
    /// consume it.
    pub fn emit_current_char_as_token(&mut self)
        requires
            old(self)@.pos < old(self)@.input.len(),
        ensures
            final(self)@ == old(self)@.emit_char(old(self)@.cur()).consume(),
    {
        proof {
            vstd::std_specs::vec::axiom_spec_len(&self.input);
        }
        let c = self.current_char();
        self.emit_char(c);
        self.pos = self.pos + 1;
    }

    /// Whether `pat` occurs at `off` characters past the cursor.
    pub(crate) fn lookahead(&self, off: usize, pat: &Vec<char>) -> (r: bool)
        ensures
            r == crate::model::matches_at(self@, off as int, pat@),
    {
        proof {
            vstd::std_specs::vec::axiom_spec_len(&self.input);
        }
        let len = self.input.len();
        let n = pat.len();
        if self.pos > len || off > len - self.pos || n > len - self.pos - off {
            return false;
        }
        let base = self.pos + off;
        let mut i: usize = 0;
        while i < n
            invariant
                0 <= i <= n,
                n == pat@.len(),
                base == self@.pos + off,
                base + n <= self@.input.len(),
                self@.input.len() <= usize::MAX,
                forall|j: int| 0 <= j < i ==> self@.input[base + j] == pat@[j],
            decreases n - i,
        {
            if self.input[base + i] != pat[i] {
                proof {
                    let ghost k = i as int;
                    assert(self@.input.subrange(base as int, base + n)[k] != pat@[k]);
                }
                return false;
            }
            i = i + 1;
        }
        proof {
            assert(self@.input.subrange(base as int, base + n) =~= pat@);
        }
        true
    }

    /// Whether `pat` (given lowercase) occurs at `off` characters past the
    /// cursor under ASCII case folding.
    pub(crate) fn lookahead_ci(&self, off: usize, pat: &Vec<char>) -> (r: bool)
        ensures
            r == crate::model::matches_at_ci(self@, off as int, pat@),
    {
        proof {
            vstd::std_specs::vec::axiom_spec_len(&self.input);
        }
        let len = self.input.len();
        let n = pat.len();
        if self.pos > len || off > len - self.pos || n > len - self.pos - off {
            return false;
        }
        let base = self.pos + off;
        let mut i: usize = 0;
        while i < n
            invariant
                0 <= i <= n,
                n == pat@.len(),
                base == self@.pos + off,
                base + n <= self@.input.len(),
                self@.input.len() <= usize::MAX,
                forall|j: int| 0 <= j < i ==> crate::model::to_lower(self@.input[base + j])
                    == pat@[j],
            decreases n - i,
        {
            if crate::util::lower_char(self.input[base + i]) != pat[i] {
                proof {
                    assert(crate::model::seq_to_lower(
                        self@.input.subrange(base as int, base + n),
                    )[i as int] != pat@[i as int]);
                }
                return false;
            }
            i = i + 1;
        }
        proof {
            assert(crate::model::seq_to_lower(self@.input.subrange(base as int, base + n))
                =~= pat@);
        }
        true
    }

    // ---- elementary verified transitions, mirroring the model ----

    pub(crate) fn consume(&mut self)
        requires
            old(self)@.pos < old(self)@.input.len(),
        ensures
            final(self)@ == old(self)@.consume(),
    {
        proof {
            vstd::std_specs::vec::axiom_spec_len(&self.input);
        }
        self.pos = self.pos + 1;
    }

    pub(crate) fn set_return(&mut self, s: State)
        ensures
            final(self)@ == old(self)@.set_return(s),
    {
        self.return_state = s;
    }

    pub(crate) fn err(&mut self, e: ParseError)
        ensures
            final(self)@ == old(self)@.err(e),
    {
        self.errors.push(e);
    }

    pub(crate) fn emit_char(&mut self, c: char)
        ensures
            final(self)@ == old(self)@.emit_char(c),
    {
        let ghost pre = self.output;
        self.output.push(Token::Character(c));
        proof {
            lemma_deep_view_push(pre, self.output, Token::Character(c));
        }
    }

    pub(crate) fn emit_eof(&mut self)
        ensures
            final(self)@ == old(self)@.emit_eof(),
    {
        let ghost pre = self.output;
        self.output.push(Token::EndOfFile);
        self.done = true;
        proof {
            lemma_deep_view_push(pre, self.output, Token::EndOfFile);
        }
    }

    pub(crate) fn emit_comment(&mut self)
        ensures
            final(self)@ == old(self)@.emit_comment(),
    {
        let ghost pre = self.output;
        let data = chars_to_string(&self.comment);
        let tok = Token::Comment(data);
        let ghost gt = tok;
        self.output.push(tok);
        proof {
            lemma_deep_view_push(pre, self.output, gt);
        }
    }

    pub(crate) fn emit_doctype(&mut self)
        ensures
            final(self)@ == old(self)@.emit_doctype(),
    {
        let ghost pre = self.output;
        let d = DOCTYPE {
            name: if self.dt_name_present {
                Some(chars_to_string(&self.dt_name))
            } else {
                None
            },
            public_identifier: if self.dt_public_present {
                Some(chars_to_string(&self.dt_public))
            } else {
                None
            },
            system_identifier: if self.dt_system_present {
                Some(chars_to_string(&self.dt_system))
            } else {
                None
            },
            force_quirks: self.dt_force_quirks,
        };
        let tok = Token::DOCTYPE(d);
        let ghost gt = tok;
        proof {
            assert(gt.deep_view() == old(self)@.cur_doctype());
        }
        self.output.push(tok);
        proof {
            lemma_deep_view_push(pre, self.output, gt);
        }
    }

    /// The attribute list with the accumulating attribute closed, as
    /// emission-ready values.
    fn closed_attrs(&self) -> (r: Vec<Attribute>)
        ensures
            r.deep_view() == self@.attrs_closed(),
    {
        let mut r: Vec<Attribute> = Vec::new();
        let n = self.attrs.len();
        let mut i: usize = 0;
        proof {
            assert(r.deep_view() =~= self.attrs.deep_view().take(0));
        }
        while i < n
            invariant
                0 <= i <= n,
                n == self.attrs@.len(),
                r.deep_view() == self.attrs.deep_view().take(i as int),
            decreases n - i,
        {
            let ghost pre = r;
            let a = Attribute {
                name: chars_to_string(&self.attrs[i].name),
                value: chars_to_string(&self.attrs[i].value),
            };
            let ghost ga = a;
            proof {
                assert(ga.deep_view() == self.attrs.deep_view()[i as int]);
            }
            r.push(a);
            proof {
                lemma_deep_view_push(pre, r, ga);
                assert(r.deep_view() =~= self.attrs.deep_view().take(i + 1));
            }
            i = i + 1;
        }
        proof {
            assert(self.attrs.deep_view().take(n as int) =~= self.attrs.deep_view());
        }
        if self.has_attr {
            let ghost pre = r;
            let a = Attribute {
                name: chars_to_string(&self.attr_name),
                value: chars_to_string(&self.attr_value),
            };
            let ghost ga = a;
            r.push(a);
            proof {
                lemma_deep_view_push(pre, r, ga);
            }
        }
        r
    }

    pub(crate) fn emit_tag(&mut self)
        ensures
            final(self)@ == old(self)@.emit_tag(),
    {
        let attributes = self.closed_attrs();
        let has_attrs = attributes.len() > 0;
        let tag = Tag {
            tag_name: chars_to_string(&self.tag_name),
            self_closing: self.self_closing,
            attributes: attributes,
        };
        proof {
            assert(tag.deep_view() == (TagM {
                name: old(self)@.tag_name,
                self_closing: old(self)@.self_closing,
                attributes: old(self)@.attrs_closed(),
            }));
        }
        let tok = if self.tag_is_start {
            Token::StartTag(tag)
        } else {
            Token::EndTag(tag)
        };
        let ghost gt = tok;
        if self.tag_is_start {
            self.last_start_tag = clone_chars(&self.tag_name);
        } else {
            if has_attrs {
                self.err(ParseError::EndTagWithAttributes);
            }
            if self.self_closing {
                self.err(ParseError::EndTagWithTrailingSolidus);
            }
        }
        let ghost pre = self.output;
        self.output.push(tok);
        proof {
            lemma_deep_view_push(pre, self.output, gt);
        }
    }

    pub(crate) fn start_start_tag(&mut self)
        ensures
            final(self)@ == old(self)@.start_start_tag(),
    {
        self.tag_is_start = true;
        self.tag_name.clear();
        self.self_closing = false;
        self.attrs.clear();
        self.attr_name.clear();
        self.attr_value.clear();
        self.has_attr = false;
        proof {
            assert(self.attrs.deep_view() =~= Seq::<AttrM>::empty());
        }
    }

    pub(crate) fn start_end_tag(&mut self)
        ensures
            final(self)@ == old(self)@.start_end_tag(),
    {
        self.tag_is_start = false;
        self.tag_name.clear();
        self.self_closing = false;
        self.attrs.clear();
        self.attr_name.clear();
        self.attr_value.clear();
        self.has_attr = false;
        proof {
            assert(self.attrs.deep_view() =~= Seq::<AttrM>::empty());
        }
    }

    pub(crate) fn start_comment_empty(&mut self)
        ensures
            final(self)@ == old(self)@.start_comment(Seq::empty()),
    {
        self.comment.clear();
    }

    pub(crate) fn start_doctype_absent(&mut self, quirks: bool)
        ensures
            final(self)@ == old(self)@.start_doctype(false, Seq::empty(), quirks),
    {
        self.dt_name_present = false;
        self.dt_name.clear();
        self.dt_public_present = false;
        self.dt_public.clear();
        self.dt_system_present = false;
        self.dt_system.clear();
        self.dt_force_quirks = quirks;
    }

    pub(crate) fn start_doctype_named(&mut self, c: char)
        ensures
            final(self)@ == old(self)@.start_doctype(true, Seq::empty().push(c), false),
    {
        self.dt_name_present = true;
        self.dt_name.clear();
        self.dt_name.push(c);
        self.dt_public_present = false;
        self.dt_public.clear();
        self.dt_system_present = false;
        self.dt_system.clear();
        self.dt_force_quirks = false;
        proof {
            assert(self.dt_name@ =~= Seq::<char>::empty().push(c));
        }
    }

    pub(crate) fn append_tag_name(&mut self, c: char)
        ensures
            final(self)@ == old(self)@.append_tag_name(c),
    {
        self.tag_name.push(c);
    }

    pub(crate) fn append_comment(&mut self, c: char)
        ensures
            final(self)@ == old(self)@.append_comment(c),
    {
        self.comment.push(c);
    }

    pub(crate) fn append_dt_name(&mut self, c: char)
        ensures
            final(self)@ == old(self)@.append_dt_name(c),
    {
        self.dt_name.push(c);
    }

    pub(crate) fn set_public_empty(&mut self)
        ensures
            final(self)@ == old(self)@.set_public_empty(),
    {
        self.dt_public_present = true;
        self.dt_public.clear();
    }

    pub(crate) fn set_system_empty(&mut self)
        ensures
            final(self)@ == old(self)@.set_system_empty(),
    {
        self.dt_system_present = true;
        self.dt_system.clear();
    }

    pub(crate) fn append_public(&mut self, c: char)
        ensures
            final(self)@ == old(self)@.append_public(c),
    {
        self.dt_public.push(c);
    }

    pub(crate) fn append_system(&mut self, c: char)
        ensures
            final(self)@ == old(self)@.append_system(c),
    {
        self.dt_system.push(c);
    }

    pub(crate) fn set_quirks(&mut self)
        ensures
            final(self)@ == old(self)@.set_quirks(),
    {
        self.dt_force_quirks = true;
    }

    pub(crate) fn set_self_closing(&mut self)
        ensures
            final(self)@ == old(self)@.set_self_closing(),
    {
        self.self_closing = true;
    }

    /// Close the accumulating attribute and begin a new one whose name starts
    /// empty or with one character.
    pub(crate) fn start_attr(&mut self, name0: Option<char>)
        ensures
            final(self)@ == old(self)@.start_attr(
                match name0 {
                    Some(c) => Seq::empty().push(c),
                    None => Seq::empty(),
                },
            ),
    {
        if self.has_attr {
            let a = AttrBuf {
                name: clone_chars(&self.attr_name),
                value: clone_chars(&self.attr_value),
            };
            let ghost pre = self.attrs;
            let ghost ga = a;
            self.attrs.push(a);
            proof {
                lemma_deep_view_push(pre, self.attrs, ga);
            }
        }
        self.attr_name.clear();
        self.attr_value.clear();
        match name0 {
            Some(c) => {
                self.attr_name.push(c);
                proof {
                    assert(self.attr_name@ =~= Seq::<char>::empty().push(c));
                }
            },
            None => {},
        }
        self.has_attr = true;
    }

    pub(crate) fn append_attr_name(&mut self, c: char)
        ensures
            final(self)@ == old(self)@.append_attr_name(c),
    {
        self.attr_name.push(c);
    }

    pub(crate) fn append_attr_value(&mut self, c: char)
        ensures
            final(self)@ == old(self)@.append_attr_value(c),
    {
        self.attr_value.push(c);
    }

    /// Report a duplicate attribute name on leaving the attribute-name state.
    pub(crate) fn dup_check(&mut self)
        ensures
            final(self)@ == old(self)@.dup_check(),
    {
        let n = self.attrs.len();
        let mut i: usize = 0;
        let mut found = false;
        while i < n
            invariant
                0 <= i <= n,
                n == self.attrs@.len(),
                found == exists|j: int|
                    0 <= j < i && self@.attrs[j].name == self@.attr_name,
                self@ == old(self)@,
            decreases n - i,
        {
            if chars_eq(&self.attrs[i].name, &self.attr_name) {
                proof {
                    assert(self@.attrs[i as int].name == self@.attr_name);
                }
                found = true;
            }
            i = i + 1;
        }
        if found {
            self.err(ParseError::DuplicateAttribute);
        }
    }

    pub(crate) fn buffer_clear(&mut self)
        ensures
            final(self)@ == old(self)@.buffer_reset(Seq::empty()),
    {
        self.buffer.clear();
    }

    pub(crate) fn buffer_reset_amp(&mut self)
        ensures
            final(self)@ == old(self)@.buffer_reset(Seq::empty().push('&')),
    {
        self.buffer.clear();
        self.buffer.push('&');
        proof {
            assert(self.buffer@ =~= Seq::<char>::empty().push('&'));
        }
    }

    /// Append the `n` input characters at the cursor to the buffer.
    pub(crate) fn buffer_append_input(&mut self, n: usize)
        requires
            old(self)@.pos + n <= old(self)@.input.len(),
        ensures
            final(self)@ == old(self)@.buffer_append(
                old(self)@.input.subrange(old(self)@.pos, old(self)@.pos + n),
            ),
    {
        let ghost sub = old(self)@.input.subrange(old(self)@.pos, old(self)@.pos + n);
        let mut i: usize = 0;
        proof {
            vstd::std_specs::vec::axiom_spec_len(&self.input);
            assert(self.buffer@ =~= old(self)@.buffer + sub.take(0));
        }
        while i < n
            invariant
                0 <= i <= n,
                sub == old(self)@.input.subrange(old(self)@.pos, old(self)@.pos + n),
                old(self)@.pos + n <= old(self)@.input.len(),
                old(self)@.input.len() <= usize::MAX,
                self@ == (M { buffer: old(self)@.buffer + sub.take(i as int), ..old(self)@ }),
            decreases n - i,
        {
            let c = self.input[self.pos + i];
            self.buffer.push(c);
            proof {
                assert(self.buffer@ =~= old(self)@.buffer + sub.take(i + 1));
            }
            i = i + 1;
        }
        proof {
            assert(sub.take(n as int) =~= sub);
        }
    }

    pub(crate) fn buffer_push(&mut self, c: char)
        ensures
            final(self)@ == old(self)@.buffer_push(c),
    {
        self.buffer.push(c);
    }

    pub(crate) fn set_code(&mut self, v: u32)
        ensures
            final(self)@ == old(self)@.set_code(v),
    {
        self.code = v;
    }

    /// Flush the code points consumed as a character reference: into the
    /// attribute value in attribute context, else as character tokens.
    pub(crate) fn flush_buffer(&mut self)
        ensures
            final(self)@ == old(self)@.flush_buffer(),
    {
        let n = self.buffer.len();
        if is_attr_return(self.return_state) {
            let mut i: usize = 0;
            proof {
                assert(self.attr_value@ =~= old(self)@.attr_value + old(self)@.buffer.take(0));
            }
            while i < n
                invariant
                    0 <= i <= n,
                    n == self.buffer@.len(),
                    self@ == (M {
                        attr_value: old(self)@.attr_value + old(self)@.buffer.take(i as int),
                        ..old(self)@
                    }),
                decreases n - i,
            {
                let c = self.buffer[i];
                self.attr_value.push(c);
                proof {
                    assert(self.attr_value@ =~= old(self)@.attr_value + old(self)@.buffer.take(
                        i + 1,
                    ));
                }
                i = i + 1;
            }
            proof {
                assert(old(self)@.buffer.take(n as int) =~= old(self)@.buffer);
            }
        } else {
            let ghost tgt = crate::model::chars_tokens(old(self)@.buffer);
            let mut i: usize = 0;
            proof {
                assert(tgt.len() == old(self)@.buffer.len());
                assert(forall|j: int|
                    0 <= j < tgt.len() ==> tgt[j] == TokenM::Character(old(self)@.buffer[j]));
                assert(self.output.deep_view() =~= old(self)@.output + tgt.take(0));
            }
            while i < n
                invariant
                    0 <= i <= n,
                    n == self.buffer@.len(),
                    tgt == crate::model::chars_tokens(old(self)@.buffer),
                    self@ == (M { output: old(self)@.output + tgt.take(i as int), ..old(self)@ }),
                decreases n - i,
            {
                let c = self.buffer[i];
                let ghost pre = self.output;
                self.output.push(Token::Character(c));
                proof {
                    lemma_deep_view_push(pre, self.output, Token::Character(c));
                    assert(tgt.len() == old(self)@.buffer.len());
                    assert(tgt[i as int] == TokenM::Character(old(self)@.buffer[i as int]));
                    assert(self.output.deep_view() =~= old(self)@.output + tgt.take(i + 1));
                }
                i = i + 1;
            }
            proof {
                assert(tgt.len() == n as int);
                assert(tgt.take(n as int) =~= tgt);
            }
        }
    }

    /// Emit the buffer's characters individually as character tokens.
    pub(crate) fn emit_buffer_chars(&mut self)
        ensures
            final(self)@ == old(self)@.emit_buffer_chars(),
    {
        let n = self.buffer.len();
        let ghost tgt = crate::model::chars_tokens(old(self)@.buffer);
        let mut i: usize = 0;
        proof {
            assert(self.output.deep_view() =~= old(self)@.output + tgt.take(0));
        }
        while i < n
            invariant
                0 <= i <= n,
                n == self.buffer@.len(),
                tgt == crate::model::chars_tokens(old(self)@.buffer),
                self@ == (M { output: old(self)@.output + tgt.take(i as int), ..old(self)@ }),
            decreases n - i,
        {
            let c = self.buffer[i];
            let ghost pre = self.output;
            self.output.push(Token::Character(c));
            proof {
                lemma_deep_view_push(pre, self.output, Token::Character(c));
                assert(tgt.len() == old(self)@.buffer.len());
                assert(tgt[i as int] == TokenM::Character(old(self)@.buffer[i as int]));
                assert(self.output.deep_view() =~= old(self)@.output + tgt.take(i + 1));
            }
            i = i + 1;
        }
        proof {
            assert(tgt.len() == n as int);
            assert(tgt.take(n as int) =~= tgt);
        }
    }

    /// Append one resolved character in the context the reference came from.
    pub(crate) fn flush_one(&mut self, c: char)
        ensures
            final(self)@ == old(self)@.flush_one(c),
    {
        if is_attr_return(self.return_state) {
            self.append_attr_value(c);
        } else {
            self.emit_char(c);
        }
    }

    /// Whether the temporary buffer spells `script`.
    pub(crate) fn buffer_spells_script(&self) -> (r: bool)
        ensures
            r == crate::script::buffer_is_script(self@),
    {
        let word = crate::script::script_chars();
        chars_eq(&self.buffer, &word)
    }

    /// Whether the end tag under construction matches the remembered start
    /// tag name.
    pub(crate) fn appropriate(&self) -> (r: bool)
        ensures
            r == self@.is_appropriate_end_tag(),
    {
        chars_eq(&self.tag_name, &self.last_start_tag)
    }
}

/// Executable twin of [`is_attr_return_state`].
pub(crate) fn is_attr_return(s: State) -> (b: bool)
    ensures
        b == is_attr_return_state(s),
{
    s == State::AttributeValueDoubleQuoted || s == State::AttributeValueSingleQuoted || s
        == State::AttributeValueUnquoted
}

} // verus!
