//! Token types emitted by the tokenizer, together with their mathematical
//! models (character sequences in place of strings).

use vstd::prelude::*;

verus! {

/// One attribute of a tag: a name and a value, both accumulated character by
/// character during tokenization.
#[derive(Debug, Clone, PartialEq)]
pub struct Attribute {
    pub name: String,
    pub value: String,
}

/// A start or end tag under construction or emitted: a (lowercased) name, a
/// self-closing flag, and the attributes in first-seen order.  A second
/// attribute with a name already present stays in the sequence; the effective
/// value of a name is the first occurrence's value (see
/// [`Tag::effective_value`]).
#[derive(Debug, Clone, PartialEq)]
pub struct Tag {
    pub tag_name: String,
    pub self_closing: bool,
    pub attributes: Vec<Attribute>,
}

/// A doctype declaration.  Name and identifiers distinguish "missing" from
/// "present but empty", which downstream tree construction observes; a
/// malformed declaration sets `force_quirks`.
#[derive(Debug, Clone, PartialEq)]
pub struct DOCTYPE {
    pub name: Option<String>,
    pub public_identifier: Option<String>,
    pub system_identifier: Option<String>,
    pub force_quirks: bool,
}

/// One structural unit of tokenizer output.  `Character` carries a single
/// Unicode scalar value; callers coalesce runs.  A finished run ends with
/// exactly one `EndOfFile`.
#[derive(Debug, Clone, PartialEq)]
pub enum Token {
    DOCTYPE(DOCTYPE),
    StartTag(Tag),
    EndTag(Tag),
    Comment(String),
    Character(char),
    EndOfFile,
}

/// Model of an [`Attribute`].
pub struct AttrM {
    pub name: Seq<char>,
    pub value: Seq<char>,
}

/// Model of a [`Tag`].
pub struct TagM {
    pub name: Seq<char>,
    pub self_closing: bool,
    pub attributes: Seq<AttrM>,
}

/// Model of a [`DOCTYPE`].
pub struct DoctypeM {
    pub name: Option<Seq<char>>,
    pub public_id: Option<Seq<char>>,
    pub system_id: Option<Seq<char>>,
    pub force_quirks: bool,
}

/// Model of a [`Token`].
pub enum TokenM {
    Doctype(DoctypeM),
    StartTag(TagM),
    EndTag(TagM),
    Comment(Seq<char>),
    Character(char),
    EndOfFile,
}

pub open spec fn opt_str_view(o: &Option<String>) -> Option<Seq<char>> {
    match o {
        Some(s) => Some(s@),
        None => None,
    }
}

impl View for Attribute {
    type V = AttrM;

    open spec fn view(&self) -> AttrM {
        AttrM { name: self.name@, value: self.value@ }
    }
}

impl DeepView for Attribute {
    type V = AttrM;

    open spec fn deep_view(&self) -> AttrM {
        self.view()
    }
}

impl View for Tag {
    type V = TagM;

    open spec fn view(&self) -> TagM {
        TagM {
            name: self.tag_name@,
            self_closing: self.self_closing,
            attributes: self.attributes.deep_view(),
        }
    }
}

impl DeepView for Tag {
    type V = TagM;

    open spec fn deep_view(&self) -> TagM {
        self.view()
    }
}

impl View for DOCTYPE {
    type V = DoctypeM;

    open spec fn view(&self) -> DoctypeM {
        DoctypeM {
            name: opt_str_view(&self.name),
            public_id: opt_str_view(&self.public_identifier),
            system_id: opt_str_view(&self.system_identifier),
            force_quirks: self.force_quirks,
        }
    }
}

impl DeepView for DOCTYPE {
    type V = DoctypeM;

    open spec fn deep_view(&self) -> DoctypeM {
        self.view()
    }
}

impl View for Token {
    type V = TokenM;

    open spec fn view(&self) -> TokenM {
        match self {
            Token::DOCTYPE(d) => TokenM::Doctype(d.view()),
            Token::StartTag(t) => TokenM::StartTag(t.view()),
            Token::EndTag(t) => TokenM::EndTag(t.view()),
            Token::Comment(s) => TokenM::Comment(s@),
            Token::Character(c) => TokenM::Character(*c),
            Token::EndOfFile => TokenM::EndOfFile,
        }
    }
}

impl DeepView for Token {
    type V = TokenM;

    open spec fn deep_view(&self) -> TokenM {
        self.view()
    }
}

impl Tag {
    /// The effective value of an attribute name on this tag: the first
    /// occurrence wins; a later attribute with the same name stays in the
    /// sequence but does not change the effective value.
    pub fn effective_value(&self, name: &String) -> (r: Option<&String>)
        ensures
            match r {
                Some(v) => exists|i: int|
                    #![trigger self@.attributes[i]]
                    0 <= i < self@.attributes.len() && self@.attributes[i].name == name@ && v@
                        == self@.attributes[i].value && (forall|j: int|
                        0 <= j < i ==> self@.attributes[j].name != name@),
                None => forall|i: int|
                    0 <= i < self@.attributes.len() ==> self@.attributes[i].name != name@,
            },
    {
        let n = self.attributes.len();
        let mut i: usize = 0;
        while i < n
            invariant
                0 <= i <= n,
                n == self.attributes@.len(),
                forall|j: int| 0 <= j < i ==> self@.attributes[j].name != name@,
            decreases n - i,
        {
            if self.attributes[i].name == *name {
                proof {
                    assert(self@.attributes[i as int].name == name@);
                }
                return Some(&self.attributes[i].value);
            }
            i = i + 1;
        }
        None
    }
}

/// A recoverable parse error.  Malformed markup never aborts tokenization:
/// each of these marks a specified resynchronization, reported on a channel
/// separate from the token stream.
#[derive(Debug, Clone, Copy, PartialEq, Eq, Structural)]
pub enum ParseError {
    AbruptClosingOfEmptyComment,
    AbruptDoctypePublicIdentifier,
    AbruptDoctypeSystemIdentifier,
    AbsenceOfDigits,
    CdataInHtmlContent,
    CharacterReferenceOutsideUnicodeRange,
    ControlCharacterReference,
    DuplicateAttribute,
    EndTagWithAttributes,
    EndTagWithTrailingSolidus,
    EofBeforeTagName,
    EofInCdata,
    EofInComment,
    EofInDoctype,
    EofInScriptHtmlCommentLikeText,
    EofInTag,
    IncorrectlyClosedComment,
    IncorrectlyOpenedComment,
    InvalidCharacterSequenceAfterDoctypeName,
    InvalidFirstCharacterOfTagName,
    MissingAttributeValue,
    MissingDoctypeName,
    MissingDoctypePublicIdentifier,
    MissingDoctypeSystemIdentifier,
    MissingEndTagName,
    MissingQuoteBeforeDoctypePublicIdentifier,
    MissingQuoteBeforeDoctypeSystemIdentifier,
    MissingSemicolonAfterCharacterReference,
    MissingWhitespaceAfterDoctypePublicKeyword,
    MissingWhitespaceAfterDoctypeSystemKeyword,
    MissingWhitespaceBeforeDoctypeName,
    MissingWhitespaceBetweenAttributes,
    MissingWhitespaceBetweenDoctypeIdentifiers,
    NestedComment,
    NoncharacterCharacterReference,
    NullCharacterReference,
    SurrogateCharacterReference,
    UnexpectedCharacterAfterDoctypeSystemIdentifier,
    UnexpectedCharacterInAttributeName,
    UnexpectedCharacterInUnquotedAttributeValue,
    UnexpectedEqualsSignBeforeAttributeName,
    UnexpectedNullCharacter,
    UnexpectedQuestionMarkInsteadOfTagName,
    UnexpectedSolidusInTag,
    UnknownNamedCharacterReference,
}

} // verus!
