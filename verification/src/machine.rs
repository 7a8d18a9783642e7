//! The driver: one elementary step of the machine (dispatch on the current
//! state), the iterated model, and the consume loop.  `step` is proved to
//! effect exactly the model's transition; `run` is proved to land on a
//! finished state of the iterated model.

use vstd::prelude::*;
use crate::state::State;
use crate::model::M;
use crate::model::rank;
use crate::token::TokenM;
use crate::tokenizer::Tokenizer;
use crate::content;
use crate::tag;
use crate::comment;
use crate::doctype;
use crate::script;
use crate::cdata;
use crate::charref;

verus! {

/// One transition of the model: the current state's transition function,
/// applied to the current character (or to end of input).  A finished
/// machine does not move.
#[verifier::opaque]
pub open spec fn step_spec(m: M) -> M {
    if m.done {
        m
    } else {
        match m.state {
            State::Data => content::sp_data(m),
            State::RCDATA => content::sp_rcdata(m),
            State::RAWTEXT => content::sp_rawtext(m),
            State::ScriptData => content::sp_script_data(m),
            State::PLAINTEXT => content::sp_plaintext(m),
            State::TagOpen => tag::sp_tag_open(m),
            State::EndTagOpen => tag::sp_end_tag_open(m),
            State::TagName => tag::sp_tag_name(m),
            State::RCDATALessThanSign => content::sp_mode_less_than(
                m,
                State::RCDATAEndTagOpen,
                State::RCDATA,
            ),
            State::RCDATAEndTagOpen => content::sp_mode_end_tag_open(
                m,
                State::RCDATAEndTagName,
                State::RCDATA,
            ),
            State::RCDATAEndTagName => content::sp_mode_end_tag_name(m, State::RCDATA),
            State::RAWTEXTLessThanSign => content::sp_mode_less_than(
                m,
                State::RAWTEXTEndTagOpen,
                State::RAWTEXT,
            ),
            State::RAWTEXTEndTagOpen => content::sp_mode_end_tag_open(
                m,
                State::RAWTEXTEndTagName,
                State::RAWTEXT,
            ),
            State::RAWTEXTEndTagName => content::sp_mode_end_tag_name(m, State::RAWTEXT),
            State::ScriptDataLessThanSign => script::sp_script_data_less_than_sign(m),
            State::ScriptDataEndTagOpen => content::sp_mode_end_tag_open(
                m,
                State::ScriptDataEndTagName,
                State::ScriptData,
            ),
            State::ScriptDataEndTagName => content::sp_mode_end_tag_name(m, State::ScriptData),
            State::ScriptDataEscapeStart => script::sp_script_data_escape_start(m),
            State::ScriptDataEscapeStartDash => script::sp_script_data_escape_start_dash(m),
            State::ScriptDataEscaped => script::sp_script_data_escaped(m),
            State::ScriptDataEscapedDash => script::sp_script_data_escaped_dash(m),
            State::ScriptDataEscapedDashDash => script::sp_script_data_escaped_dash_dash(m),
            State::ScriptDataEscapedLessThanSign => script::sp_script_data_escaped_less_than_sign(
                m,
            ),
            State::ScriptDataEscapedEndTagOpen => script::sp_script_data_escaped_end_tag_open(m),
            State::ScriptDataEscapedEndTagName => content::sp_mode_end_tag_name(
                m,
                State::ScriptDataEscaped,
            ),
            State::ScriptDataDoubleEscapeStart => script::sp_script_data_double_escape_decide(
                m,
                State::ScriptDataDoubleEscaped,
                State::ScriptDataEscaped,
                State::ScriptDataEscaped,
            ),
            State::ScriptDataDoubleEscaped => script::sp_script_data_double_escaped(m),
            State::ScriptDataDoubleEscapedDash => script::sp_script_data_double_escaped_dash(m),
            State::ScriptDataDoubleEscapedDashDash => script::sp_script_data_double_escaped_dash_dash(
                m,
            ),
            State::ScriptDataDoubleEscapedLessThanSign => script::sp_script_data_double_escaped_less_than_sign(
                m,
            ),
            State::ScriptDataDoubleEscapeEnd => script::sp_script_data_double_escape_decide(
                m,
                State::ScriptDataEscaped,
                State::ScriptDataDoubleEscaped,
                State::ScriptDataDoubleEscaped,
            ),
            State::BeforeAttributeName => tag::sp_before_attribute_name(m),
            State::AttributeName => tag::sp_attribute_name(m),
            State::AfterAttributeName => tag::sp_after_attribute_name(m),
            State::BeforeAttributeValue => tag::sp_before_attribute_value(m),
            State::AttributeValueDoubleQuoted => tag::sp_attribute_value_quoted(
                m,
                '"',
                State::AttributeValueDoubleQuoted,
            ),
            State::AttributeValueSingleQuoted => tag::sp_attribute_value_quoted(
                m,
                '\'',
                State::AttributeValueSingleQuoted,
            ),
            State::AttributeValueUnquoted => tag::sp_attribute_value_unquoted(m),
            State::AfterAttributeValueQuoted => tag::sp_after_attribute_value_quoted(m),
            State::SelfClosingStartTag => tag::sp_self_closing_start_tag(m),
            State::BogusComment => comment::sp_bogus_comment(m),
            State::MarkupDeclarationOpen => comment::sp_markup_declaration_open(m),
            State::CommentStart => comment::sp_comment_start(m),
            State::CommentStartDash => comment::sp_comment_start_dash(m),
            State::Comment => comment::sp_comment(m),
            State::CommentLessThanSign => comment::sp_comment_less_than_sign(m),
            State::CommentLessThanSignBang => comment::sp_comment_less_than_sign_bang(m),
            State::CommentLessThanSignBangDash => comment::sp_comment_less_than_sign_bang_dash(m),
            State::CommentLessThanSignBangDashDash => comment::sp_comment_less_than_sign_bang_dash_dash(
                m,
            ),
            State::CommentEndDash => comment::sp_comment_end_dash(m),
            State::CommentEnd => comment::sp_comment_end(m),
            State::CommentEndBang => comment::sp_comment_end_bang(m),
            State::DOCTYPE => doctype::sp_doctype(m),
            State::BeforeDOCTYPEName => doctype::sp_before_doctype_name(m),
            State::DOCTYPEName => doctype::sp_doctype_name(m),
            State::AfterDOCTYPEName => doctype::sp_after_doctype_name(m),
            State::AfterDOCTYPEPublicKeyword => doctype::sp_after_doctype_public_keyword(m),
            State::BeforeDOCTYPEPublicIdentifier => doctype::sp_before_doctype_public_identifier(
                m,
            ),
            State::DOCTYPEPublicIdentifierDoubleQuoted => doctype::sp_doctype_public_identifier_quoted(
                m,
                '"',
            ),
            State::DOCTYPEPublicIdentifierSingleQuoted => doctype::sp_doctype_public_identifier_quoted(
                m,
                '\'',
            ),
            State::AfterDOCTYPEPublicIdentifier => doctype::sp_after_doctype_public_identifier(m),
            State::BetweenDOCTYPEPublicAndSystemIdentifiers => doctype::sp_between_doctype_public_and_system_identifiers(
                m,
            ),
            State::AfterDOCTYPESystemKeyword => doctype::sp_after_doctype_system_keyword(m),
            State::BeforeDOCTYPESystemIdentifier => doctype::sp_before_doctype_system_identifier(
                m,
            ),
            State::DOCTYPESystemIdentifierDoubleQuoted => doctype::sp_doctype_system_identifier_quoted(
                m,
                '"',
            ),
            State::DOCTYPESystemIdentifierSingleQuoted => doctype::sp_doctype_system_identifier_quoted(
                m,
                '\'',
            ),
            State::AfterDOCTYPESystemIdentifier => doctype::sp_after_doctype_system_identifier(m),
            State::BogusDOCTYPE => doctype::sp_bogus_doctype(m),
            State::CDATASection => cdata::sp_cdata_section(m),
            State::CDATASectionBracket => cdata::sp_cdata_section_bracket(m),
            State::CDATASectionEnd => cdata::sp_cdata_section_end(m),
            State::CharacterReference => charref::sp_character_reference(m),
            State::NamedCharacterReference => charref::sp_named_character_reference(m),
            State::AmbiguousAmpersand => charref::sp_ambiguous_ampersand(m),
            State::NumericCharacterReference => charref::sp_numeric_character_reference(m),
            State::HexadecimalCharacterReferenceStart => charref::sp_hexadecimal_character_reference_start(
                m,
            ),
            State::DecimalCharacterReferenceStart => charref::sp_decimal_character_reference_start(
                m,
            ),
            State::HexadecimalCharacterReference => charref::sp_hexadecimal_character_reference(m),
            State::DecimalCharacterReference => charref::sp_decimal_character_reference(m),
            State::NumericCharacterReferenceEnd => charref::sp_numeric_character_reference_end(m),
        }
    }
}

/// The model after `n` elementary steps.
pub open spec fn iterate(m: M, n: nat) -> M
    decreases n,
{
    if n == 0 {
        m
    } else {
        step_spec(iterate(m, (n - 1) as nat))
    }
}

/// No end-of-file token anywhere in the stream.
pub open spec fn no_eof(s: Seq<TokenM>) -> bool {
    forall|i: int| 0 <= i < s.len() ==> s[i] != TokenM::EndOfFile
}

/// The stream ends with an end-of-file token and holds no other.
pub open spec fn ends_with_single_eof(s: Seq<TokenM>) -> bool {
    &&& s.len() > 0
    &&& s.last() == TokenM::EndOfFile
    &&& forall|i: int| 0 <= i < s.len() - 1 ==> s[i] != TokenM::EndOfFile
}

/// A step that starts without an end-of-file token in the stream emits one
/// exactly when it finishes the run, as the final token.
pub open spec fn eof_step_ok(m: M, r: M) -> bool {
    no_eof(m.output) ==> ((r.done ==> ends_with_single_eof(r.output)) && (!r.done ==> no_eof(
        r.output,
    )))
}

/// What one step guarantees for the driver: well-formedness is kept, the
/// cursor never moves backwards, and every step either finishes, consumes
/// input, or descends in [`rank`].
pub open spec fn step_progress(m: M, r: M) -> bool {
    &&& r.inv()
    &&& r.input == m.input
    &&& m.pos <= r.pos
    &&& r.done || r.pos > m.pos || (r.pos == m.pos && rank(r) < rank(m))
}


impl Tokenizer {
    #[verifier::rlimit(100)]
    #[verifier::spinoff_prover]
    fn step_lower(&mut self)
        requires
            !old(self)@.done,
            old(self)@.state == State::Data || old(self)@.state == State::RCDATA || old(self)@.state == State::RAWTEXT || old(self)@.state == State::ScriptData || old(self)@.state == State::PLAINTEXT || old(self)@.state == State::TagOpen || old(self)@.state == State::EndTagOpen || old(self)@.state == State::TagName || old(self)@.state == State::RCDATALessThanSign || old(self)@.state == State::RCDATAEndTagOpen || old(self)@.state == State::RCDATAEndTagName || old(self)@.state == State::RAWTEXTLessThanSign || old(self)@.state == State::RAWTEXTEndTagOpen || old(self)@.state == State::RAWTEXTEndTagName || old(self)@.state == State::ScriptDataLessThanSign || old(self)@.state == State::ScriptDataEndTagOpen || old(self)@.state == State::ScriptDataEndTagName || old(self)@.state == State::ScriptDataEscapeStart || old(self)@.state == State::ScriptDataEscapeStartDash || old(self)@.state == State::ScriptDataEscaped || old(self)@.state == State::ScriptDataEscapedDash || old(self)@.state == State::ScriptDataEscapedDashDash || old(self)@.state == State::ScriptDataEscapedLessThanSign || old(self)@.state == State::ScriptDataEscapedEndTagOpen || old(self)@.state == State::ScriptDataEscapedEndTagName || old(self)@.state == State::ScriptDataDoubleEscapeStart || old(self)@.state == State::ScriptDataDoubleEscaped || old(self)@.state == State::ScriptDataDoubleEscapedDash || old(self)@.state == State::ScriptDataDoubleEscapedDashDash || old(self)@.state == State::ScriptDataDoubleEscapedLessThanSign || old(self)@.state == State::ScriptDataDoubleEscapeEnd || old(self)@.state == State::BeforeAttributeName || old(self)@.state == State::AttributeName || old(self)@.state == State::AfterAttributeName || old(self)@.state == State::BeforeAttributeValue || old(self)@.state == State::AttributeValueDoubleQuoted || old(self)@.state == State::AttributeValueSingleQuoted || old(self)@.state == State::AttributeValueUnquoted || old(self)@.state == State::AfterAttributeValueQuoted || old(self)@.state == State::SelfClosingStartTag,
        ensures
            final(self)@ == step_spec(old(self)@),
            old(self)@.inv() ==> step_progress(old(self)@, final(self)@),
            eof_step_ok(old(self)@, final(self)@),
    {
        let s = self.state();
        match s {
            State::Data => {
                self.st_data();
                proof {
                    assert(self@ == step_spec(old(self)@)) by {
                        reveal(step_spec);
                    }
                }
            },
            State::RCDATA => {
                self.st_rcdata();
                proof {
                    assert(self@ == step_spec(old(self)@)) by {
                        reveal(step_spec);
                    }
                }
            },
            State::RAWTEXT => {
                self.st_rawtext();
                proof {
                    assert(self@ == step_spec(old(self)@)) by {
                        reveal(step_spec);
                    }
                }
            },
            State::ScriptData => {
                self.st_script_data();
                proof {
                    assert(self@ == step_spec(old(self)@)) by {
                        reveal(step_spec);
                    }
                }
            },
            State::PLAINTEXT => {
                self.st_plaintext();
                proof {
                    assert(self@ == step_spec(old(self)@)) by {
                        reveal(step_spec);
                    }
                }
            },
            State::TagOpen => {
                self.st_tag_open();
                proof {
                    assert(self@ == step_spec(old(self)@)) by {
                        reveal(step_spec);
                    }
                }
            },
            State::EndTagOpen => {
                self.st_end_tag_open();
                proof {
                    assert(self@ == step_spec(old(self)@)) by {
                        reveal(step_spec);
                    }
                }
            },
            State::TagName => {
                self.st_tag_name();
                proof {
                    assert(self@ == step_spec(old(self)@)) by {
                        reveal(step_spec);
                    }
                }
            },
            State::RCDATALessThanSign => {
                self.st_mode_less_than(
                State::RCDATAEndTagOpen,
                State::RCDATA,
            );
                proof {
                    assert(self@ == step_spec(old(self)@)) by {
                        reveal(step_spec);
                    }
                }
            },
            State::RCDATAEndTagOpen => {
                self.st_mode_end_tag_open(
                State::RCDATAEndTagName,
                State::RCDATA,
            );
                proof {
                    assert(self@ == step_spec(old(self)@)) by {
                        reveal(step_spec);
                    }
                }
            },
            State::RCDATAEndTagName => {
                self.st_mode_end_tag_name(State::RCDATA);
                proof {
                    assert(self@ == step_spec(old(self)@)) by {
                        reveal(step_spec);
                    }
                }
            },
            State::RAWTEXTLessThanSign => {
                self.st_mode_less_than(
                State::RAWTEXTEndTagOpen,
                State::RAWTEXT,
            );
                proof {
                    assert(self@ == step_spec(old(self)@)) by {
                        reveal(step_spec);
                    }
                }
            },
            State::RAWTEXTEndTagOpen => {
                self.st_mode_end_tag_open(
                State::RAWTEXTEndTagName,
                State::RAWTEXT,
            );
                proof {
                    assert(self@ == step_spec(old(self)@)) by {
                        reveal(step_spec);
                    }
                }
            },
            State::RAWTEXTEndTagName => {
                self.st_mode_end_tag_name(State::RAWTEXT);
                proof {
                    assert(self@ == step_spec(old(self)@)) by {
                        reveal(step_spec);
                    }
                }
            },
            State::ScriptDataLessThanSign => {
                self.st_script_data_less_than_sign();
                proof {
                    assert(self@ == step_spec(old(self)@)) by {
                        reveal(step_spec);
                    }
                }
            },
            State::ScriptDataEndTagOpen => {
                self.st_mode_end_tag_open(
                State::ScriptDataEndTagName,
                State::ScriptData,
            );
                proof {
                    assert(self@ == step_spec(old(self)@)) by {
                        reveal(step_spec);
                    }
                }
            },
            State::ScriptDataEndTagName => {
                self.st_mode_end_tag_name(State::ScriptData);
                proof {
                    assert(self@ == step_spec(old(self)@)) by {
                        reveal(step_spec);
                    }
                }
            },
            State::ScriptDataEscapeStart => {
                self.st_script_data_escape_start();
                proof {
                    assert(self@ == step_spec(old(self)@)) by {
                        reveal(step_spec);
                    }
                }
            },
            State::ScriptDataEscapeStartDash => {
                self.st_script_data_escape_start_dash();
                proof {
                    assert(self@ == step_spec(old(self)@)) by {
                        reveal(step_spec);
                    }
                }
            },
            State::ScriptDataEscaped => {
                self.st_script_data_escaped();
                proof {
                    assert(self@ == step_spec(old(self)@)) by {
                        reveal(step_spec);
                    }
                }
            },
            State::ScriptDataEscapedDash => {
                self.st_script_data_escaped_dash();
                proof {
                    assert(self@ == step_spec(old(self)@)) by {
                        reveal(step_spec);
                    }
                }
            },
            State::ScriptDataEscapedDashDash => {
                self.st_script_data_escaped_dash_dash();
                proof {
                    assert(self@ == step_spec(old(self)@)) by {
                        reveal(step_spec);
                    }
                }
            },
            State::ScriptDataEscapedLessThanSign => {
                self.st_script_data_escaped_less_than_sign();
                proof {
                    assert(self@ == step_spec(old(self)@)) by {
                        reveal(step_spec);
                    }
                }
            },
            State::ScriptDataEscapedEndTagOpen => {
                self.st_script_data_escaped_end_tag_open();
                proof {
                    assert(self@ == step_spec(old(self)@)) by {
                        reveal(step_spec);
                    }
                }
            },
            State::ScriptDataEscapedEndTagName => {
                self.st_mode_end_tag_name(
                State::ScriptDataEscaped,
            );
                proof {
                    assert(self@ == step_spec(old(self)@)) by {
                        reveal(step_spec);
                    }
                }
            },
            State::ScriptDataDoubleEscapeStart => {
                self.st_script_data_double_escape_decide(
                State::ScriptDataDoubleEscaped,
                State::ScriptDataEscaped,
                State::ScriptDataEscaped,
            );
                proof {
                    assert(self@ == step_spec(old(self)@)) by {
                        reveal(step_spec);
                    }
                }
            },
            State::ScriptDataDoubleEscaped => {
                self.st_script_data_double_escaped();
                proof {
                    assert(self@ == step_spec(old(self)@)) by {
                        reveal(step_spec);
                    }
                }
            },
            State::ScriptDataDoubleEscapedDash => {
                self.st_script_data_double_escaped_dash();
                proof {
                    assert(self@ == step_spec(old(self)@)) by {
                        reveal(step_spec);
                    }
                }
            },
            State::ScriptDataDoubleEscapedDashDash => {
                self.st_script_data_double_escaped_dash_dash(
            );
                proof {
                    assert(self@ == step_spec(old(self)@)) by {
                        reveal(step_spec);
                    }
                }
            },
            State::ScriptDataDoubleEscapedLessThanSign => {
                self.st_script_data_double_escaped_less_than_sign(
            );
                proof {
                    assert(self@ == step_spec(old(self)@)) by {
                        reveal(step_spec);
                    }
                }
            },
            State::ScriptDataDoubleEscapeEnd => {
                self.st_script_data_double_escape_decide(
                State::ScriptDataEscaped,
                State::ScriptDataDoubleEscaped,
                State::ScriptDataDoubleEscaped,
            );
                proof {
                    assert(self@ == step_spec(old(self)@)) by {
                        reveal(step_spec);
                    }
                }
            },
            State::BeforeAttributeName => {
                self.st_before_attribute_name();
                proof {
                    assert(self@ == step_spec(old(self)@)) by {
                        reveal(step_spec);
                    }
                }
            },
            State::AttributeName => {
                self.st_attribute_name();
                proof {
                    assert(self@ == step_spec(old(self)@)) by {
                        reveal(step_spec);
                    }
                }
            },
            State::AfterAttributeName => {
                self.st_after_attribute_name();
                proof {
                    assert(self@ == step_spec(old(self)@)) by {
                        reveal(step_spec);
                    }
                }
            },
            State::BeforeAttributeValue => {
                self.st_before_attribute_value();
                proof {
                    assert(self@ == step_spec(old(self)@)) by {
                        reveal(step_spec);
                    }
                }
            },
            State::AttributeValueDoubleQuoted => {
                self.st_attribute_value_quoted(
                '"',
                State::AttributeValueDoubleQuoted,
            );
                proof {
                    assert(self@ == step_spec(old(self)@)) by {
                        reveal(step_spec);
                    }
                }
            },
            State::AttributeValueSingleQuoted => {
                self.st_attribute_value_quoted(
                '\'',
                State::AttributeValueSingleQuoted,
            );
                proof {
                    assert(self@ == step_spec(old(self)@)) by {
                        reveal(step_spec);
                    }
                }
            },
            State::AttributeValueUnquoted => {
                self.st_attribute_value_unquoted();
                proof {
                    assert(self@ == step_spec(old(self)@)) by {
                        reveal(step_spec);
                    }
                }
            },
            State::AfterAttributeValueQuoted => {
                self.st_after_attribute_value_quoted();
                proof {
                    assert(self@ == step_spec(old(self)@)) by {
                        reveal(step_spec);
                    }
                }
            },
            State::SelfClosingStartTag => {
                self.st_self_closing_start_tag();
                proof {
                    assert(self@ == step_spec(old(self)@)) by {
                        reveal(step_spec);
                    }
                }
            },
            _ => {
                proof {
                    assert(false);
                }
            },
        }
    }

    #[verifier::rlimit(100)]
    #[verifier::spinoff_prover]
    fn step_upper(&mut self)
        requires
            !old(self)@.done,
            old(self)@.state == State::BogusComment || old(self)@.state == State::MarkupDeclarationOpen || old(self)@.state == State::CommentStart || old(self)@.state == State::CommentStartDash || old(self)@.state == State::Comment || old(self)@.state == State::CommentLessThanSign || old(self)@.state == State::CommentLessThanSignBang || old(self)@.state == State::CommentLessThanSignBangDash || old(self)@.state == State::CommentLessThanSignBangDashDash || old(self)@.state == State::CommentEndDash || old(self)@.state == State::CommentEnd || old(self)@.state == State::CommentEndBang || old(self)@.state == State::DOCTYPE || old(self)@.state == State::BeforeDOCTYPEName || old(self)@.state == State::DOCTYPEName || old(self)@.state == State::AfterDOCTYPEName || old(self)@.state == State::AfterDOCTYPEPublicKeyword || old(self)@.state == State::BeforeDOCTYPEPublicIdentifier || old(self)@.state == State::DOCTYPEPublicIdentifierDoubleQuoted || old(self)@.state == State::DOCTYPEPublicIdentifierSingleQuoted || old(self)@.state == State::AfterDOCTYPEPublicIdentifier || old(self)@.state == State::BetweenDOCTYPEPublicAndSystemIdentifiers || old(self)@.state == State::AfterDOCTYPESystemKeyword || old(self)@.state == State::BeforeDOCTYPESystemIdentifier || old(self)@.state == State::DOCTYPESystemIdentifierDoubleQuoted || old(self)@.state == State::DOCTYPESystemIdentifierSingleQuoted || old(self)@.state == State::AfterDOCTYPESystemIdentifier || old(self)@.state == State::BogusDOCTYPE,
        ensures
            final(self)@ == step_spec(old(self)@),
            old(self)@.inv() ==> step_progress(old(self)@, final(self)@),
            eof_step_ok(old(self)@, final(self)@),
    {
        let s = self.state();
        match s {
                        State::BogusComment => {
                self.st_bogus_comment();
                proof {
                    assert(self@ == step_spec(old(self)@)) by {
                        reveal(step_spec);
                    }
                }
            },
            State::MarkupDeclarationOpen => {
                self.st_markup_declaration_open();
                proof {
                    assert(self@ == step_spec(old(self)@)) by {
                        reveal(step_spec);
                    }
                }
            },
            State::CommentStart => {
                self.st_comment_start();
                proof {
                    assert(self@ == step_spec(old(self)@)) by {
                        reveal(step_spec);
                    }
                }
            },
            State::CommentStartDash => {
                self.st_comment_start_dash();
                proof {
                    assert(self@ == step_spec(old(self)@)) by {
                        reveal(step_spec);
                    }
                }
            },
            State::Comment => {
                self.st_comment();
                proof {
                    assert(self@ == step_spec(old(self)@)) by {
                        reveal(step_spec);
                    }
                }
            },
            State::CommentLessThanSign => {
                self.st_comment_less_than_sign();
                proof {
                    assert(self@ == step_spec(old(self)@)) by {
                        reveal(step_spec);
                    }
                }
            },
            State::CommentLessThanSignBang => {
                self.st_comment_less_than_sign_bang();
                proof {
                    assert(self@ == step_spec(old(self)@)) by {
                        reveal(step_spec);
                    }
                }
            },
            State::CommentLessThanSignBangDash => {
                self.st_comment_less_than_sign_bang_dash();
                proof {
                    assert(self@ == step_spec(old(self)@)) by {
                        reveal(step_spec);
                    }
                }
            },
            State::CommentLessThanSignBangDashDash => {
                self.st_comment_less_than_sign_bang_dash_dash(
            );
                proof {
                    assert(self@ == step_spec(old(self)@)) by {
                        reveal(step_spec);
                    }
                }
            },
            State::CommentEndDash => {
                self.st_comment_end_dash();
                proof {
                    assert(self@ == step_spec(old(self)@)) by {
                        reveal(step_spec);
                    }
                }
            },
            State::CommentEnd => {
                self.st_comment_end();
                proof {
                    assert(self@ == step_spec(old(self)@)) by {
                        reveal(step_spec);
                    }
                }
            },
            State::CommentEndBang => {
                self.st_comment_end_bang();
                proof {
                    assert(self@ == step_spec(old(self)@)) by {
                        reveal(step_spec);
                    }
                }
            },
            State::DOCTYPE => {
                self.st_doctype();
                proof {
                    assert(self@ == step_spec(old(self)@)) by {
                        reveal(step_spec);
                    }
                }
            },
            State::BeforeDOCTYPEName => {
                self.st_before_doctype_name();
                proof {
                    assert(self@ == step_spec(old(self)@)) by {
                        reveal(step_spec);
                    }
                }
            },
            State::DOCTYPEName => {
                self.st_doctype_name();
                proof {
                    assert(self@ == step_spec(old(self)@)) by {
                        reveal(step_spec);
                    }
                }
            },
            State::AfterDOCTYPEName => {
                self.st_after_doctype_name();
                proof {
                    assert(self@ == step_spec(old(self)@)) by {
                        reveal(step_spec);
                    }
                }
            },
            State::AfterDOCTYPEPublicKeyword => {
                self.st_after_doctype_public_keyword();
                proof {
                    assert(self@ == step_spec(old(self)@)) by {
                        reveal(step_spec);
                    }
                }
            },
            State::BeforeDOCTYPEPublicIdentifier => {
                self.st_before_doctype_public_identifier();
                proof {
                    assert(self@ == step_spec(old(self)@)) by {
                        reveal(step_spec);
                    }
                }
            },
            State::DOCTYPEPublicIdentifierDoubleQuoted => {
                self.st_doctype_public_identifier_quoted(
                '"',
            );
                proof {
                    assert(self@ == step_spec(old(self)@)) by {
                        reveal(step_spec);
                    }
                }
            },
            State::DOCTYPEPublicIdentifierSingleQuoted => {
                self.st_doctype_public_identifier_quoted(
                '\'',
            );
                proof {
                    assert(self@ == step_spec(old(self)@)) by {
                        reveal(step_spec);
                    }
                }
            },
            State::AfterDOCTYPEPublicIdentifier => {
                self.st_after_doctype_public_identifier();
                proof {
                    assert(self@ == step_spec(old(self)@)) by {
                        reveal(step_spec);
                    }
                }
            },
            State::BetweenDOCTYPEPublicAndSystemIdentifiers => {
                self.st_between_doctype_public_and_system_identifiers(
            );
                proof {
                    assert(self@ == step_spec(old(self)@)) by {
                        reveal(step_spec);
                    }
                }
            },
            State::AfterDOCTYPESystemKeyword => {
                self.st_after_doctype_system_keyword();
                proof {
                    assert(self@ == step_spec(old(self)@)) by {
                        reveal(step_spec);
                    }
                }
            },
            State::BeforeDOCTYPESystemIdentifier => {
                self.st_before_doctype_system_identifier();
                proof {
                    assert(self@ == step_spec(old(self)@)) by {
                        reveal(step_spec);
                    }
                }
            },
            State::DOCTYPESystemIdentifierDoubleQuoted => {
                self.st_doctype_system_identifier_quoted(
                '"',
            );
                proof {
                    assert(self@ == step_spec(old(self)@)) by {
                        reveal(step_spec);
                    }
                }
            },
            State::DOCTYPESystemIdentifierSingleQuoted => {
                self.st_doctype_system_identifier_quoted(
                '\'',
            );
                proof {
                    assert(self@ == step_spec(old(self)@)) by {
                        reveal(step_spec);
                    }
                }
            },
            State::AfterDOCTYPESystemIdentifier => {
                self.st_after_doctype_system_identifier();
                proof {
                    assert(self@ == step_spec(old(self)@)) by {
                        reveal(step_spec);
                    }
                }
            },
            State::BogusDOCTYPE => {
                self.st_bogus_doctype();
                proof {
                    assert(self@ == step_spec(old(self)@)) by {
                        reveal(step_spec);
                    }
                }
            },
            _ => {
                proof {
                    assert(false);
                }
            },
        }
    }

    #[verifier::rlimit(100)]
    #[verifier::spinoff_prover]
    fn step_final(&mut self)
        requires
            !old(self)@.done,
            old(self)@.state == State::CDATASection || old(self)@.state == State::CDATASectionBracket || old(self)@.state == State::CDATASectionEnd || old(self)@.state == State::CharacterReference || old(self)@.state == State::NamedCharacterReference || old(self)@.state == State::AmbiguousAmpersand || old(self)@.state == State::NumericCharacterReference || old(self)@.state == State::HexadecimalCharacterReferenceStart || old(self)@.state == State::DecimalCharacterReferenceStart || old(self)@.state == State::HexadecimalCharacterReference || old(self)@.state == State::DecimalCharacterReference || old(self)@.state == State::NumericCharacterReferenceEnd,
        ensures
            final(self)@ == step_spec(old(self)@),
            old(self)@.inv() ==> step_progress(old(self)@, final(self)@),
            eof_step_ok(old(self)@, final(self)@),
    {
        let s = self.state();
        match s {
            State::CDATASection => {
                self.st_cdata_section();
                proof {
                    assert(self@ == step_spec(old(self)@)) by {
                        reveal(step_spec);
                    }
                }
            },
            State::CDATASectionBracket => {
                self.st_cdata_section_bracket();
                proof {
                    assert(self@ == step_spec(old(self)@)) by {
                        reveal(step_spec);
                    }
                }
            },
            State::CDATASectionEnd => {
                self.st_cdata_section_end();
                proof {
                    assert(self@ == step_spec(old(self)@)) by {
                        reveal(step_spec);
                    }
                }
            },
            State::CharacterReference => {
                self.st_character_reference();
                proof {
                    assert(self@ == step_spec(old(self)@)) by {
                        reveal(step_spec);
                    }
                }
            },
            State::NamedCharacterReference => {
                self.st_named_character_reference();
                proof {
                    assert(self@ == step_spec(old(self)@)) by {
                        reveal(step_spec);
                    }
                }
            },
            State::AmbiguousAmpersand => {
                self.st_ambiguous_ampersand();
                proof {
                    assert(self@ == step_spec(old(self)@)) by {
                        reveal(step_spec);
                    }
                }
            },
            State::NumericCharacterReference => {
                self.st_numeric_character_reference();
                proof {
                    assert(self@ == step_spec(old(self)@)) by {
                        reveal(step_spec);
                    }
                }
            },
            State::HexadecimalCharacterReferenceStart => {
                self.st_hexadecimal_character_reference_start(
            );
                proof {
                    assert(self@ == step_spec(old(self)@)) by {
                        reveal(step_spec);
                    }
                }
            },
            State::DecimalCharacterReferenceStart => {
                self.st_decimal_character_reference_start();
                proof {
                    assert(self@ == step_spec(old(self)@)) by {
                        reveal(step_spec);
                    }
                }
            },
            State::HexadecimalCharacterReference => {
                self.st_hexadecimal_character_reference();
                proof {
                    assert(self@ == step_spec(old(self)@)) by {
                        reveal(step_spec);
                    }
                }
            },
            State::DecimalCharacterReference => {
                self.st_decimal_character_reference();
                proof {
                    assert(self@ == step_spec(old(self)@)) by {
                        reveal(step_spec);
                    }
                }
            },
            State::NumericCharacterReferenceEnd => {
                self.st_numeric_character_reference_end();
                proof {
                    assert(self@ == step_spec(old(self)@)) by {
                        reveal(step_spec);
                    }
                }
            },
            _ => {
                proof {
                    assert(false);
                }
            },
        }
    }

    /// One elementary step of the machine: dispatch to the current state's
    /// transition.
    #[verifier::rlimit(100)]
    #[verifier::spinoff_prover]
    pub fn step(&mut self)
        requires
            !old(self)@.done,
        ensures
            final(self)@ == step_spec(old(self)@),
            old(self)@.inv() ==> step_progress(old(self)@, final(self)@),
            eof_step_ok(old(self)@, final(self)@),
    {
        let s = self.state();
        match s {
            State::Data | State::RCDATA | State::RAWTEXT | State::ScriptData | State::PLAINTEXT | State::TagOpen | State::EndTagOpen | State::TagName | State::RCDATALessThanSign | State::RCDATAEndTagOpen | State::RCDATAEndTagName | State::RAWTEXTLessThanSign | State::RAWTEXTEndTagOpen | State::RAWTEXTEndTagName | State::ScriptDataLessThanSign | State::ScriptDataEndTagOpen | State::ScriptDataEndTagName | State::ScriptDataEscapeStart | State::ScriptDataEscapeStartDash | State::ScriptDataEscaped | State::ScriptDataEscapedDash | State::ScriptDataEscapedDashDash | State::ScriptDataEscapedLessThanSign | State::ScriptDataEscapedEndTagOpen | State::ScriptDataEscapedEndTagName | State::ScriptDataDoubleEscapeStart | State::ScriptDataDoubleEscaped | State::ScriptDataDoubleEscapedDash | State::ScriptDataDoubleEscapedDashDash | State::ScriptDataDoubleEscapedLessThanSign | State::ScriptDataDoubleEscapeEnd | State::BeforeAttributeName | State::AttributeName | State::AfterAttributeName | State::BeforeAttributeValue | State::AttributeValueDoubleQuoted | State::AttributeValueSingleQuoted | State::AttributeValueUnquoted | State::AfterAttributeValueQuoted | State::SelfClosingStartTag => self.step_lower(),
            State::CDATASection | State::CDATASectionBracket | State::CDATASectionEnd | State::CharacterReference | State::NamedCharacterReference | State::AmbiguousAmpersand | State::NumericCharacterReference | State::HexadecimalCharacterReferenceStart | State::DecimalCharacterReferenceStart | State::HexadecimalCharacterReference | State::DecimalCharacterReference | State::NumericCharacterReferenceEnd => self.step_final(),
            _ => self.step_upper(),
        }
    }

    /// Drive the machine to completion: consume until end of input and the
    /// final end-of-file token is emitted.  The result is exactly the
    /// iterated model's first finished state.
    pub fn run(&mut self)
        requires
            old(self)@.inv(),
            !old(self)@.done,
        ensures
            final(self)@.done,
            final(self)@.inv(),
            exists|n: nat| final(self)@ == iterate(old(self)@, n),
            no_eof(old(self)@.output) ==> ends_with_single_eof(final(self)@.output),
    {
        let ghost init = old(self)@;
        let ghost mut steps: nat = 0;
        while !self.is_done()
            invariant
                self@.inv(),
                self@ == iterate(init, steps),
                no_eof(init.output) ==> ((!self@.done ==> no_eof(self@.output)) && (self@.done
                    ==> ends_with_single_eof(self@.output))),
            decreases
                    (if self@.done {
                        0int
                    } else {
                        1int
                    }),
                    self@.input.len() - self@.pos,
                    rank(self@),
        {
            self.step();
            proof {
                steps = steps + 1;
                assert(iterate(init, steps) == step_spec(iterate(init, (steps - 1) as nat)));
            }
        }
    }
}

} // verus!
