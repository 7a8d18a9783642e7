//! The named character reference table: longest-prefix matching against a
//! fixed set of entity names (with the legacy semicolon-less forms that HTML
//! still resolves).  Entries are ordered longest first, so the first match
//! is the longest match and a shorter entry never shadows a longer one with
//! the same prefix.

use vstd::prelude::*;
use crate::model::M;
use crate::model::matches_at;
use crate::tokenizer::Tokenizer;
use crate::trusted::string_to_chars;

verus! {

/// The longest entity name that occurs at the cursor, with its length in
/// characters and the character it resolves to; `None` when no entry of the
/// table occurs there.
pub open spec fn entity_match(m: M) -> Option<(int, char)> {
    if matches_at(m, 0, "hellip;"@) {
        Some((7 as int, '\u{2026}'))
    } else if matches_at(m, 0, "middot;"@) {
        Some((7 as int, '\u{b7}'))
    } else if matches_at(m, 0, "plusmn;"@) {
        Some((7 as int, '\u{b1}'))
    } else if matches_at(m, 0, "divide;"@) {
        Some((7 as int, '\u{f7}'))
    } else if matches_at(m, 0, "trade;"@) {
        Some((6 as int, '\u{2122}'))
    } else if matches_at(m, 0, "mdash;"@) {
        Some((6 as int, '\u{2014}'))
    } else if matches_at(m, 0, "ndash;"@) {
        Some((6 as int, '\u{2013}'))
    } else if matches_at(m, 0, "lsquo;"@) {
        Some((6 as int, '\u{2018}'))
    } else if matches_at(m, 0, "rsquo;"@) {
        Some((6 as int, '\u{2019}'))
    } else if matches_at(m, 0, "ldquo;"@) {
        Some((6 as int, '\u{201c}'))
    } else if matches_at(m, 0, "rdquo;"@) {
        Some((6 as int, '\u{201d}'))
    } else if matches_at(m, 0, "middot"@) {
        Some((6 as int, '\u{b7}'))
    } else if matches_at(m, 0, "plusmn"@) {
        Some((6 as int, '\u{b1}'))
    } else if matches_at(m, 0, "times;"@) {
        Some((6 as int, '\u{d7}'))
    } else if matches_at(m, 0, "divide"@) {
        Some((6 as int, '\u{f7}'))
    } else if matches_at(m, 0, "micro;"@) {
        Some((6 as int, '\u{b5}'))
    } else if matches_at(m, 0, "laquo;"@) {
        Some((6 as int, '\u{ab}'))
    } else if matches_at(m, 0, "raquo;"@) {
        Some((6 as int, '\u{bb}'))
    } else if matches_at(m, 0, "notin;"@) {
        Some((6 as int, '\u{2209}'))
    } else if matches_at(m, 0, "pound;"@) {
        Some((6 as int, '\u{a3}'))
    } else if matches_at(m, 0, "quot;"@) {
        Some((5 as int, '\"'))
    } else if matches_at(m, 0, "apos;"@) {
        Some((5 as int, '\''))
    } else if matches_at(m, 0, "nbsp;"@) {
        Some((5 as int, '\u{a0}'))
    } else if matches_at(m, 0, "copy;"@) {
        Some((5 as int, '\u{a9}'))
    } else if matches_at(m, 0, "bull;"@) {
        Some((5 as int, '\u{2022}'))
    } else if matches_at(m, 0, "sect;"@) {
        Some((5 as int, '\u{a7}'))
    } else if matches_at(m, 0, "para;"@) {
        Some((5 as int, '\u{b6}'))
    } else if matches_at(m, 0, "times"@) {
        Some((5 as int, '\u{d7}'))
    } else if matches_at(m, 0, "micro"@) {
        Some((5 as int, '\u{b5}'))
    } else if matches_at(m, 0, "laquo"@) {
        Some((5 as int, '\u{ab}'))
    } else if matches_at(m, 0, "raquo"@) {
        Some((5 as int, '\u{bb}'))
    } else if matches_at(m, 0, "pound"@) {
        Some((5 as int, '\u{a3}'))
    } else if matches_at(m, 0, "cent;"@) {
        Some((5 as int, '\u{a2}'))
    } else if matches_at(m, 0, "euro;"@) {
        Some((5 as int, '\u{20ac}'))
    } else if matches_at(m, 0, "amp;"@) {
        Some((4 as int, '&'))
    } else if matches_at(m, 0, "quot"@) {
        Some((4 as int, '\"'))
    } else if matches_at(m, 0, "nbsp"@) {
        Some((4 as int, '\u{a0}'))
    } else if matches_at(m, 0, "copy"@) {
        Some((4 as int, '\u{a9}'))
    } else if matches_at(m, 0, "reg;"@) {
        Some((4 as int, '\u{ae}'))
    } else if matches_at(m, 0, "sect"@) {
        Some((4 as int, '\u{a7}'))
    } else if matches_at(m, 0, "para"@) {
        Some((4 as int, '\u{b6}'))
    } else if matches_at(m, 0, "deg;"@) {
        Some((4 as int, '\u{b0}'))
    } else if matches_at(m, 0, "not;"@) {
        Some((4 as int, '\u{ac}'))
    } else if matches_at(m, 0, "shy;"@) {
        Some((4 as int, '\u{ad}'))
    } else if matches_at(m, 0, "yen;"@) {
        Some((4 as int, '\u{a5}'))
    } else if matches_at(m, 0, "cent"@) {
        Some((4 as int, '\u{a2}'))
    } else if matches_at(m, 0, "amp"@) {
        Some((3 as int, '&'))
    } else if matches_at(m, 0, "lt;"@) {
        Some((3 as int, '<'))
    } else if matches_at(m, 0, "gt;"@) {
        Some((3 as int, '>'))
    } else if matches_at(m, 0, "reg"@) {
        Some((3 as int, '\u{ae}'))
    } else if matches_at(m, 0, "deg"@) {
        Some((3 as int, '\u{b0}'))
    } else if matches_at(m, 0, "not"@) {
        Some((3 as int, '\u{ac}'))
    } else if matches_at(m, 0, "shy"@) {
        Some((3 as int, '\u{ad}'))
    } else if matches_at(m, 0, "yen"@) {
        Some((3 as int, '\u{a5}'))
    } else if matches_at(m, 0, "lt"@) {
        Some((2 as int, '<'))
    } else if matches_at(m, 0, "gt"@) {
        Some((2 as int, '>'))
    } else {
        None
    }
}

/// A matched entity name lies within the input: its length is positive and
/// the match ends at or before the end of input.
#[verifier::rlimit(50)]
pub proof fn lemma_entity_match_bounds(m: M, n: int, ch: char)
    requires
        entity_match(m) == Some((n, ch)),
    ensures
        1 <= n,
        m.pos + n <= m.input.len(),
{
    reveal_strlit("hellip;");
    reveal_strlit("middot;");
    reveal_strlit("plusmn;");
    reveal_strlit("divide;");
    reveal_strlit("trade;");
    reveal_strlit("mdash;");
    reveal_strlit("ndash;");
    reveal_strlit("lsquo;");
    reveal_strlit("rsquo;");
    reveal_strlit("ldquo;");
    reveal_strlit("rdquo;");
    reveal_strlit("middot");
    reveal_strlit("plusmn");
    reveal_strlit("times;");
    reveal_strlit("divide");
    reveal_strlit("micro;");
    reveal_strlit("laquo;");
    reveal_strlit("raquo;");
    reveal_strlit("notin;");
    reveal_strlit("pound;");
    reveal_strlit("quot;");
    reveal_strlit("apos;");
    reveal_strlit("nbsp;");
    reveal_strlit("copy;");
    reveal_strlit("bull;");
    reveal_strlit("sect;");
    reveal_strlit("para;");
    reveal_strlit("times");
    reveal_strlit("micro");
    reveal_strlit("laquo");
    reveal_strlit("raquo");
    reveal_strlit("pound");
    reveal_strlit("cent;");
    reveal_strlit("euro;");
    reveal_strlit("amp;");
    reveal_strlit("quot");
    reveal_strlit("nbsp");
    reveal_strlit("copy");
    reveal_strlit("reg;");
    reveal_strlit("sect");
    reveal_strlit("para");
    reveal_strlit("deg;");
    reveal_strlit("not;");
    reveal_strlit("shy;");
    reveal_strlit("yen;");
    reveal_strlit("cent");
    reveal_strlit("amp");
    reveal_strlit("lt;");
    reveal_strlit("gt;");
    reveal_strlit("reg");
    reveal_strlit("deg");
    reveal_strlit("not");
    reveal_strlit("shy");
    reveal_strlit("yen");
    reveal_strlit("lt");
    reveal_strlit("gt");
}

impl Tokenizer {
    /// The longest named-reference match at the cursor.
    #[verifier::rlimit(50)]
    pub(crate) fn named_entity_lookup(&self) -> (r: Option<(usize, char)>)
        ensures
            match r {
                Some(p) => entity_match(self@) == Some((p.0 as int, p.1)),
                None => entity_match(self@) is None,
            },
    {
        let p = string_to_chars("hellip;");
        if self.lookahead(0, &p) {
            return Some((7, '\u{2026}'));
        }
        let p = string_to_chars("middot;");
        if self.lookahead(0, &p) {
            return Some((7, '\u{b7}'));
        }
        let p = string_to_chars("plusmn;");
        if self.lookahead(0, &p) {
            return Some((7, '\u{b1}'));
        }
        let p = string_to_chars("divide;");
        if self.lookahead(0, &p) {
            return Some((7, '\u{f7}'));
        }
        let p = string_to_chars("trade;");
        if self.lookahead(0, &p) {
            return Some((6, '\u{2122}'));
        }
        let p = string_to_chars("mdash;");
        if self.lookahead(0, &p) {
            return Some((6, '\u{2014}'));
        }
        let p = string_to_chars("ndash;");
        if self.lookahead(0, &p) {
            return Some((6, '\u{2013}'));
        }
        let p = string_to_chars("lsquo;");
        if self.lookahead(0, &p) {
            return Some((6, '\u{2018}'));
        }
        let p = string_to_chars("rsquo;");
        if self.lookahead(0, &p) {
            return Some((6, '\u{2019}'));
        }
        let p = string_to_chars("ldquo;");
        if self.lookahead(0, &p) {
            return Some((6, '\u{201c}'));
        }
        let p = string_to_chars("rdquo;");
        if self.lookahead(0, &p) {
            return Some((6, '\u{201d}'));
        }
        let p = string_to_chars("middot");
        if self.lookahead(0, &p) {
            return Some((6, '\u{b7}'));
        }
        let p = string_to_chars("plusmn");
        if self.lookahead(0, &p) {
            return Some((6, '\u{b1}'));
        }
        let p = string_to_chars("times;");
        if self.lookahead(0, &p) {
            return Some((6, '\u{d7}'));
        }
        let p = string_to_chars("divide");
        if self.lookahead(0, &p) {
            return Some((6, '\u{f7}'));
        }
        let p = string_to_chars("micro;");
        if self.lookahead(0, &p) {
            return Some((6, '\u{b5}'));
        }
        let p = string_to_chars("laquo;");
        if self.lookahead(0, &p) {
            return Some((6, '\u{ab}'));
        }
        let p = string_to_chars("raquo;");
        if self.lookahead(0, &p) {
            return Some((6, '\u{bb}'));
        }
        let p = string_to_chars("notin;");
        if self.lookahead(0, &p) {
            return Some((6, '\u{2209}'));
        }
        let p = string_to_chars("pound;");
        if self.lookahead(0, &p) {
            return Some((6, '\u{a3}'));
        }
        let p = string_to_chars("quot;");
        if self.lookahead(0, &p) {
            return Some((5, '\"'));
        }
        let p = string_to_chars("apos;");
        if self.lookahead(0, &p) {
            return Some((5, '\''));
        }
        let p = string_to_chars("nbsp;");
        if self.lookahead(0, &p) {
            return Some((5, '\u{a0}'));
        }
        let p = string_to_chars("copy;");
        if self.lookahead(0, &p) {
            return Some((5, '\u{a9}'));
        }
        let p = string_to_chars("bull;");
        if self.lookahead(0, &p) {
            return Some((5, '\u{2022}'));
        }
        let p = string_to_chars("sect;");
        if self.lookahead(0, &p) {
            return Some((5, '\u{a7}'));
        }
        let p = string_to_chars("para;");
        if self.lookahead(0, &p) {
            return Some((5, '\u{b6}'));
        }
        let p = string_to_chars("times");
        if self.lookahead(0, &p) {
            return Some((5, '\u{d7}'));
        }
        let p = string_to_chars("micro");
        if self.lookahead(0, &p) {
            return Some((5, '\u{b5}'));
        }
        let p = string_to_chars("laquo");
        if self.lookahead(0, &p) {
            return Some((5, '\u{ab}'));
        }
        let p = string_to_chars("raquo");
        if self.lookahead(0, &p) {
            return Some((5, '\u{bb}'));
        }
        let p = string_to_chars("pound");
        if self.lookahead(0, &p) {
            return Some((5, '\u{a3}'));
        }
        let p = string_to_chars("cent;");
        if self.lookahead(0, &p) {
            return Some((5, '\u{a2}'));
        }
        let p = string_to_chars("euro;");
        if self.lookahead(0, &p) {
            return Some((5, '\u{20ac}'));
        }
        let p = string_to_chars("amp;");
        if self.lookahead(0, &p) {
            return Some((4, '&'));
        }
        let p = string_to_chars("quot");
        if self.lookahead(0, &p) {
            return Some((4, '\"'));
        }
        let p = string_to_chars("nbsp");
        if self.lookahead(0, &p) {
            return Some((4, '\u{a0}'));
        }
        let p = string_to_chars("copy");
        if self.lookahead(0, &p) {
            return Some((4, '\u{a9}'));
        }
        let p = string_to_chars("reg;");
        if self.lookahead(0, &p) {
            return Some((4, '\u{ae}'));
        }
        let p = string_to_chars("sect");
        if self.lookahead(0, &p) {
            return Some((4, '\u{a7}'));
        }
        let p = string_to_chars("para");
        if self.lookahead(0, &p) {
            return Some((4, '\u{b6}'));
        }
        let p = string_to_chars("deg;");
        if self.lookahead(0, &p) {
            return Some((4, '\u{b0}'));
        }
        let p = string_to_chars("not;");
        if self.lookahead(0, &p) {
            return Some((4, '\u{ac}'));
        }
        let p = string_to_chars("shy;");
        if self.lookahead(0, &p) {
            return Some((4, '\u{ad}'));
        }
        let p = string_to_chars("yen;");
        if self.lookahead(0, &p) {
            return Some((4, '\u{a5}'));
        }
        let p = string_to_chars("cent");
        if self.lookahead(0, &p) {
            return Some((4, '\u{a2}'));
        }
        let p = string_to_chars("amp");
        if self.lookahead(0, &p) {
            return Some((3, '&'));
        }
        let p = string_to_chars("lt;");
        if self.lookahead(0, &p) {
            return Some((3, '<'));
        }
        let p = string_to_chars("gt;");
        if self.lookahead(0, &p) {
            return Some((3, '>'));
        }
        let p = string_to_chars("reg");
        if self.lookahead(0, &p) {
            return Some((3, '\u{ae}'));
        }
        let p = string_to_chars("deg");
        if self.lookahead(0, &p) {
            return Some((3, '\u{b0}'));
        }
        let p = string_to_chars("not");
        if self.lookahead(0, &p) {
            return Some((3, '\u{ac}'));
        }
        let p = string_to_chars("shy");
        if self.lookahead(0, &p) {
            return Some((3, '\u{ad}'));
        }
        let p = string_to_chars("yen");
        if self.lookahead(0, &p) {
            return Some((3, '\u{a5}'));
        }
        let p = string_to_chars("lt");
        if self.lookahead(0, &p) {
            return Some((2, '<'));
        }
        let p = string_to_chars("gt");
        if self.lookahead(0, &p) {
            return Some((2, '>'));
        }
        None
    }
}

} // verus!
