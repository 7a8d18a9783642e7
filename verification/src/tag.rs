//! Tag-open, tag-name, attribute and self-closing states.

use vstd::prelude::*;
use crate::state::State;
use crate::token::ParseError;
use crate::model::M;
use crate::model::is_ws;
use crate::model::is_alpha;
use crate::model::to_lower;
use crate::tokenizer::Tokenizer;
use crate::util;

verus! {

broadcast use crate::model::lemma_chars_tokens_facts;

pub open spec fn sp_tag_open(m: M) -> M {
    if m.at_eof() {
        m.err(ParseError::EofBeforeTagName).emit_char('<').emit_eof()
    } else {
        let c = m.cur();
        if c == '!' {
            m.to_state(State::MarkupDeclarationOpen)
        } else if c == '/' {
            m.to_state(State::EndTagOpen).consume()
        } else if is_alpha(c) {
            m.start_start_tag().to_state(State::TagName)
        } else if c == '?' {
            m.err(ParseError::UnexpectedQuestionMarkInsteadOfTagName).start_comment(
                Seq::empty(),
            ).to_state(State::BogusComment)
        } else {
            m.err(ParseError::InvalidFirstCharacterOfTagName).emit_char('<').to_state(
                State::Data,
            )
        }
    }
}

pub open spec fn sp_end_tag_open(m: M) -> M {
    if m.at_eof() {
        m.err(ParseError::EofBeforeTagName).emit_char('<').emit_char('/').emit_eof()
    } else {
        let c = m.cur();
        if is_alpha(c) {
            m.start_end_tag().to_state(State::TagName)
        } else if c == '>' {
            m.err(ParseError::MissingEndTagName).to_state(State::Data).consume()
        } else {
            m.err(ParseError::InvalidFirstCharacterOfTagName).start_comment(
                Seq::empty(),
            ).to_state(State::BogusComment)
        }
    }
}

pub open spec fn sp_tag_name(m: M) -> M {
    if m.at_eof() {
        m.err(ParseError::EofInTag).emit_eof()
    } else {
        let c = m.cur();
        if is_ws(c) {
            m.to_state(State::BeforeAttributeName).consume()
        } else if c == '/' {
            m.to_state(State::SelfClosingStartTag).consume()
        } else if c == '>' {
            m.emit_tag().to_state(State::Data).consume()
        } else if c == '\0' {
            m.err(ParseError::UnexpectedNullCharacter).append_tag_name('\u{fffd}').consume()
        } else {
            m.append_tag_name(to_lower(c)).consume()
        }
    }
}

pub open spec fn sp_before_attribute_name(m: M) -> M {
    if m.at_eof() {
        m.to_state(State::AfterAttributeName)
    } else {
        let c = m.cur();
        if is_ws(c) {
            m.consume()
        } else if c == '/' || c == '>' {
            m.to_state(State::AfterAttributeName)
        } else if c == '=' {
            m.err(ParseError::UnexpectedEqualsSignBeforeAttributeName).start_attr(
                seq![c],
            ).to_state(State::AttributeName).consume()
        } else {
            m.start_attr(Seq::empty()).to_state(State::AttributeName)
        }
    }
}

pub open spec fn sp_attribute_name(m: M) -> M {
    if m.at_eof() {
        m.dup_check().to_state(State::AfterAttributeName)
    } else {
        let c = m.cur();
        if is_ws(c) || c == '/' || c == '>' {
            m.dup_check().to_state(State::AfterAttributeName)
        } else if c == '=' {
            m.dup_check().to_state(State::BeforeAttributeValue).consume()
        } else if c == '\0' {
            m.err(ParseError::UnexpectedNullCharacter).append_attr_name('\u{fffd}').consume()
        } else if c == '"' || c == '\'' || c == '<' {
            m.err(ParseError::UnexpectedCharacterInAttributeName).append_attr_name(
                to_lower(c),
            ).consume()
        } else {
            m.append_attr_name(to_lower(c)).consume()
        }
    }
}

pub open spec fn sp_after_attribute_name(m: M) -> M {
    if m.at_eof() {
        m.err(ParseError::EofInTag).emit_eof()
    } else {
        let c = m.cur();
        if is_ws(c) {
            m.consume()
        } else if c == '/' {
            m.to_state(State::SelfClosingStartTag).consume()
        } else if c == '=' {
            m.to_state(State::BeforeAttributeValue).consume()
        } else if c == '>' {
            m.emit_tag().to_state(State::Data).consume()
        } else {
            m.start_attr(Seq::empty()).to_state(State::AttributeName)
        }
    }
}

pub open spec fn sp_before_attribute_value(m: M) -> M {
    if m.at_eof() {
        m.to_state(State::AttributeValueUnquoted)
    } else {
        let c = m.cur();
        if is_ws(c) {
            m.consume()
        } else if c == '"' {
            m.to_state(State::AttributeValueDoubleQuoted).consume()
        } else if c == '\'' {
            m.to_state(State::AttributeValueSingleQuoted).consume()
        } else if c == '>' {
            m.err(ParseError::MissingAttributeValue).emit_tag().to_state(State::Data).consume()
        } else {
            m.to_state(State::AttributeValueUnquoted)
        }
    }
}

pub open spec fn sp_attribute_value_quoted(m: M, quote: char, this: State) -> M {
    if m.at_eof() {
        m.err(ParseError::EofInTag).emit_eof()
    } else {
        let c = m.cur();
        if c == quote {
            m.to_state(State::AfterAttributeValueQuoted).consume()
        } else if c == '&' {
            m.set_return(this).buffer_reset(seq!['&']).to_state(
                State::CharacterReference,
            ).consume()
        } else if c == '\0' {
            m.err(ParseError::UnexpectedNullCharacter).append_attr_value('\u{fffd}').consume()
        } else {
            m.append_attr_value(c).consume()
        }
    }
}

pub open spec fn sp_attribute_value_unquoted(m: M) -> M {
    if m.at_eof() {
        m.err(ParseError::EofInTag).emit_eof()
    } else {
        let c = m.cur();
        if is_ws(c) {
            m.to_state(State::BeforeAttributeName).consume()
        } else if c == '&' {
            m.set_return(State::AttributeValueUnquoted).buffer_reset(seq!['&']).to_state(
                State::CharacterReference,
            ).consume()
        } else if c == '>' {
            m.emit_tag().to_state(State::Data).consume()
        } else if c == '\0' {
            m.err(ParseError::UnexpectedNullCharacter).append_attr_value('\u{fffd}').consume()
        } else if c == '"' || c == '\'' || c == '<' || c == '=' || c == '`' {
            m.err(ParseError::UnexpectedCharacterInUnquotedAttributeValue).append_attr_value(
                c,
            ).consume()
        } else {
            m.append_attr_value(c).consume()
        }
    }
}

pub open spec fn sp_after_attribute_value_quoted(m: M) -> M {
    if m.at_eof() {
        m.err(ParseError::EofInTag).emit_eof()
    } else {
        let c = m.cur();
        if is_ws(c) {
            m.to_state(State::BeforeAttributeName).consume()
        } else if c == '/' {
            m.to_state(State::SelfClosingStartTag).consume()
        } else if c == '>' {
            m.emit_tag().to_state(State::Data).consume()
        } else {
            m.err(ParseError::MissingWhitespaceBetweenAttributes).to_state(
                State::BeforeAttributeName,
            )
        }
    }
}

pub open spec fn sp_self_closing_start_tag(m: M) -> M {
    if m.at_eof() {
        m.err(ParseError::EofInTag).emit_eof()
    } else {
        let c = m.cur();
        if c == '>' {
            m.set_self_closing().emit_tag().to_state(State::Data).consume()
        } else {
            m.err(ParseError::UnexpectedSolidusInTag).to_state(State::BeforeAttributeName)
        }
    }
}

impl Tokenizer {
    pub(crate) fn st_tag_open(&mut self)
        ensures
            final(self)@ == sp_tag_open(old(self)@),
            old(self)@.inv() && !old(self)@.done && old(self)@.state == State::TagOpen
                ==> crate::machine::step_progress(
                old(self)@,
                final(self)@,
            ),
            !old(self)@.done ==> crate::machine::eof_step_ok(old(self)@, final(self)@),
    {
        if self.at_end() {
            self.err(ParseError::EofBeforeTagName);
            self.emit_char('<');
            self.emit_eof();
            return ;
        }
        let c = self.current_char();
        if c == '!' {
            self.switch_to_without_consuming(State::MarkupDeclarationOpen);
        } else if c == '/' {
            self.switch_to(State::EndTagOpen);
        } else if util::alpha(c) {
            self.start_start_tag();
            self.switch_to_without_consuming(State::TagName);
        } else if c == '?' {
            self.err(ParseError::UnexpectedQuestionMarkInsteadOfTagName);
            self.start_comment_empty();
            self.switch_to_without_consuming(State::BogusComment);
        } else {
            self.err(ParseError::InvalidFirstCharacterOfTagName);
            self.emit_char('<');
            self.switch_to_without_consuming(State::Data);
        }
    }

    pub(crate) fn st_end_tag_open(&mut self)
        ensures
            final(self)@ == sp_end_tag_open(old(self)@),
            old(self)@.inv() && !old(self)@.done && old(self)@.state == State::EndTagOpen
                ==> crate::machine::step_progress(
                old(self)@,
                final(self)@,
            ),
            !old(self)@.done ==> crate::machine::eof_step_ok(old(self)@, final(self)@),
    {
        if self.at_end() {
            self.err(ParseError::EofBeforeTagName);
            self.emit_char('<');
            self.emit_char('/');
            self.emit_eof();
            return ;
        }
        let c = self.current_char();
        if util::alpha(c) {
            self.start_end_tag();
            self.switch_to_without_consuming(State::TagName);
        } else if c == '>' {
            self.err(ParseError::MissingEndTagName);
            self.switch_to(State::Data);
        } else {
            self.err(ParseError::InvalidFirstCharacterOfTagName);
            self.start_comment_empty();
            self.switch_to_without_consuming(State::BogusComment);
        }
    }

    pub(crate) fn st_tag_name(&mut self)
        ensures
            final(self)@ == sp_tag_name(old(self)@),
            old(self)@.inv() && !old(self)@.done && old(self)@.state == State::TagName
                ==> crate::machine::step_progress(
                old(self)@,
                final(self)@,
            ),
            !old(self)@.done ==> crate::machine::eof_step_ok(old(self)@, final(self)@),
    {
        if self.at_end() {
            self.err(ParseError::EofInTag);
            self.emit_eof();
            return ;
        }
        let c = self.current_char();
        if util::ws(c) {
            self.switch_to(State::BeforeAttributeName);
        } else if c == '/' {
            self.switch_to(State::SelfClosingStartTag);
        } else if c == '>' {
            self.emit_tag();
            self.switch_to(State::Data);
        } else if c == '\0' {
            self.err(ParseError::UnexpectedNullCharacter);
            self.append_tag_name('\u{fffd}');
            self.consume();
        } else {
            self.append_tag_name(util::lower_char(c));
            self.consume();
        }
    }

    pub(crate) fn st_before_attribute_name(&mut self)
        ensures
            final(self)@ == sp_before_attribute_name(old(self)@),
            old(self)@.inv() && !old(self)@.done && old(self)@.state == State::BeforeAttributeName
                ==> crate::machine::step_progress(
                old(self)@,
                final(self)@,
            ),
            !old(self)@.done ==> crate::machine::eof_step_ok(old(self)@, final(self)@),
    {
        if self.at_end() {
            self.switch_to_without_consuming(State::AfterAttributeName);
            return ;
        }
        let c = self.current_char();
        if util::ws(c) {
            self.consume();
        } else if c == '/' || c == '>' {
            self.switch_to_without_consuming(State::AfterAttributeName);
        } else if c == '=' {
            self.err(ParseError::UnexpectedEqualsSignBeforeAttributeName);
            self.start_attr(Some(c));
            self.switch_to(State::AttributeName);
        } else {
            self.start_attr(None);
            self.switch_to_without_consuming(State::AttributeName);
        }
    }

    pub(crate) fn st_attribute_name(&mut self)
        ensures
            final(self)@ == sp_attribute_name(old(self)@),
            old(self)@.inv() && !old(self)@.done && old(self)@.state == State::AttributeName
                ==> crate::machine::step_progress(
                old(self)@,
                final(self)@,
            ),
            !old(self)@.done ==> crate::machine::eof_step_ok(old(self)@, final(self)@),
    {
        if self.at_end() {
            self.dup_check();
            self.switch_to_without_consuming(State::AfterAttributeName);
            return ;
        }
        let c = self.current_char();
        if util::ws(c) || c == '/' || c == '>' {
            self.dup_check();
            self.switch_to_without_consuming(State::AfterAttributeName);
        } else if c == '=' {
            self.dup_check();
            self.switch_to(State::BeforeAttributeValue);
        } else if c == '\0' {
            self.err(ParseError::UnexpectedNullCharacter);
            self.append_attr_name('\u{fffd}');
            self.consume();
        } else {
            if c == '"' || c == '\'' || c == '<' {
                self.err(ParseError::UnexpectedCharacterInAttributeName);
            }
            self.append_attr_name(util::lower_char(c));
            self.consume();
        }
    }

    pub(crate) fn st_after_attribute_name(&mut self)
        ensures
            final(self)@ == sp_after_attribute_name(old(self)@),
            old(self)@.inv() && !old(self)@.done && old(self)@.state == State::AfterAttributeName
                ==> crate::machine::step_progress(
                old(self)@,
                final(self)@,
            ),
            !old(self)@.done ==> crate::machine::eof_step_ok(old(self)@, final(self)@),
    {
        if self.at_end() {
            self.err(ParseError::EofInTag);
            self.emit_eof();
            return ;
        }
        let c = self.current_char();
        if util::ws(c) {
            self.consume();
        } else if c == '/' {
            self.switch_to(State::SelfClosingStartTag);
        } else if c == '=' {
            self.switch_to(State::BeforeAttributeValue);
        } else if c == '>' {
            self.emit_tag();
            self.switch_to(State::Data);
        } else {
            self.start_attr(None);
            self.switch_to_without_consuming(State::AttributeName);
        }
    }

    pub(crate) fn st_before_attribute_value(&mut self)
        ensures
            final(self)@ == sp_before_attribute_value(old(self)@),
            old(self)@.inv() && !old(self)@.done && old(self)@.state == State::BeforeAttributeValue
                ==> crate::machine::step_progress(
                old(self)@,
                final(self)@,
            ),
            !old(self)@.done ==> crate::machine::eof_step_ok(old(self)@, final(self)@),
    {
        if self.at_end() {
            self.switch_to_without_consuming(State::AttributeValueUnquoted);
            return ;
        }
        let c = self.current_char();
        if util::ws(c) {
            self.consume();
        } else if c == '"' {
            self.switch_to(State::AttributeValueDoubleQuoted);
        } else if c == '\'' {
            self.switch_to(State::AttributeValueSingleQuoted);
        } else if c == '>' {
            self.err(ParseError::MissingAttributeValue);
            self.emit_tag();
            self.switch_to(State::Data);
        } else {
            self.switch_to_without_consuming(State::AttributeValueUnquoted);
        }
    }

    pub(crate) fn st_attribute_value_quoted(&mut self, quote: char, this: State)
        ensures
            final(self)@ == sp_attribute_value_quoted(old(self)@, quote, this),
            old(self)@.inv() && !old(self)@.done && this == old(self)@.state
                && (old(self)@.state == State::AttributeValueDoubleQuoted
                || old(self)@.state == State::AttributeValueSingleQuoted)
                ==> crate::machine::step_progress(
                old(self)@,
                final(self)@,
            ),
            !old(self)@.done ==> crate::machine::eof_step_ok(old(self)@, final(self)@),
    {
        if self.at_end() {
            self.err(ParseError::EofInTag);
            self.emit_eof();
            return ;
        }
        let c = self.current_char();
        if c == quote {
            self.switch_to(State::AfterAttributeValueQuoted);
        } else if c == '&' {
            self.set_return(this);
            self.buffer_reset_amp();
            self.switch_to(State::CharacterReference);
        } else if c == '\0' {
            self.err(ParseError::UnexpectedNullCharacter);
            self.append_attr_value('\u{fffd}');
            self.consume();
        } else {
            self.append_attr_value(c);
            self.consume();
        }
    }

    pub(crate) fn st_attribute_value_unquoted(&mut self)
        ensures
            final(self)@ == sp_attribute_value_unquoted(old(self)@),
            old(self)@.inv() && !old(self)@.done && old(self)@.state == State::AttributeValueUnquoted
                ==> crate::machine::step_progress(
                old(self)@,
                final(self)@,
            ),
            !old(self)@.done ==> crate::machine::eof_step_ok(old(self)@, final(self)@),
    {
        if self.at_end() {
            self.err(ParseError::EofInTag);
            self.emit_eof();
            return ;
        }
        let c = self.current_char();
        if util::ws(c) {
            self.switch_to(State::BeforeAttributeName);
        } else if c == '&' {
            self.set_return(State::AttributeValueUnquoted);
            self.buffer_reset_amp();
            self.switch_to(State::CharacterReference);
        } else if c == '>' {
            self.emit_tag();
            self.switch_to(State::Data);
        } else if c == '\0' {
            self.err(ParseError::UnexpectedNullCharacter);
            self.append_attr_value('\u{fffd}');
            self.consume();
        } else {
            if c == '"' || c == '\'' || c == '<' || c == '=' || c == '`' {
                self.err(ParseError::UnexpectedCharacterInUnquotedAttributeValue);
            }
            self.append_attr_value(c);
            self.consume();
        }
    }

    pub(crate) fn st_after_attribute_value_quoted(&mut self)
        ensures
            final(self)@ == sp_after_attribute_value_quoted(old(self)@),
            old(self)@.inv() && !old(self)@.done && old(self)@.state == State::AfterAttributeValueQuoted
                ==> crate::machine::step_progress(
                old(self)@,
                final(self)@,
            ),
            !old(self)@.done ==> crate::machine::eof_step_ok(old(self)@, final(self)@),
    {
        if self.at_end() {
            self.err(ParseError::EofInTag);
            self.emit_eof();
            return ;
        }
        let c = self.current_char();
        if util::ws(c) {
            self.switch_to(State::BeforeAttributeName);
        } else if c == '/' {
            self.switch_to(State::SelfClosingStartTag);
        } else if c == '>' {
            self.emit_tag();
            self.switch_to(State::Data);
        } else {
            self.err(ParseError::MissingWhitespaceBetweenAttributes);
            self.switch_to_without_consuming(State::BeforeAttributeName);
        }
    }

    pub(crate) fn st_self_closing_start_tag(&mut self)
        ensures
            final(self)@ == sp_self_closing_start_tag(old(self)@),
            old(self)@.inv() && !old(self)@.done && old(self)@.state == State::SelfClosingStartTag
                ==> crate::machine::step_progress(
                old(self)@,
                final(self)@,
            ),
            !old(self)@.done ==> crate::machine::eof_step_ok(old(self)@, final(self)@),
    {
        if self.at_end() {
            self.err(ParseError::EofInTag);
            self.emit_eof();
            return ;
        }
        let c = self.current_char();
        if c == '>' {
            self.set_self_closing();
            self.emit_tag();
            self.switch_to(State::Data);
        } else {
            self.err(ParseError::UnexpectedSolidusInTag);
            self.switch_to_without_consuming(State::BeforeAttributeName);
        }
    }
}

} // verus!
