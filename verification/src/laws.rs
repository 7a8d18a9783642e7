//! Laws of the iterated model: a finished machine emits nothing further, all
//! finished states of one run agree, and markup that is only text comes back
//! out as exactly its characters.

use vstd::prelude::*;
use crate::state::State;
use crate::model::M;
use crate::model::init_model;
use crate::model::chars_tokens;
use crate::model::lemma_chars_tokens_facts;
use crate::machine::step_spec;
use crate::machine::iterate;
use crate::token::TokenM;

verus! {

/// Law: a finished machine emits no further token: however many more steps
/// the model takes, it stays exactly as it is.  Together with `run`'s
/// guarantee that the final token is the single end-of-file token, nothing
/// follows that token.
pub proof fn lemma_finished_machine_stays(m: M, n: nat)
    requires
        m.done,
    ensures
        iterate(m, n) == m,
    decreases n,
{
    if n > 0 {
        lemma_finished_machine_stays(m, (n - 1) as nat);
        assert(step_spec(m) == m) by {
            reveal(step_spec);
        }
    }
}

/// Stepping `a + b` times is stepping `a` times, then `b` times.
pub proof fn lemma_iterate_adds(m: M, a: nat, b: nat)
    ensures
        iterate(m, a + b) == iterate(iterate(m, a), b),
    decreases b,
{
    if b > 0 {
        lemma_iterate_adds(m, a, (b - 1) as nat);
        assert(a + b == (a + (b - 1) as nat) + 1);
    }
}

/// Law: one run has one outcome.  Any two finished states the iterated model
/// reaches from the same start are the same state, so the token sequence a
/// run delivers is pinned.
pub proof fn lemma_finished_states_agree(m: M, n1: nat, n2: nat)
    requires
        iterate(m, n1).done,
        iterate(m, n2).done,
    ensures
        iterate(m, n1) == iterate(m, n2),
{
    if n1 <= n2 {
        lemma_iterate_adds(m, n1, (n2 - n1) as nat);
        lemma_finished_machine_stays(iterate(m, n1), (n2 - n1) as nat);
    } else {
        lemma_iterate_adds(m, n2, (n1 - n2) as nat);
        lemma_finished_machine_stays(iterate(m, n2), (n1 - n2) as nat);
    }
}

/// Text with no markup in it: no tag opener, no reference opener, and no
/// null character (which would be reported and substituted).
pub open spec fn plain_text(s: Seq<char>) -> bool {
    forall|i: int| 0 <= i < s.len() ==> s[i] != '<' && s[i] != '&' && s[i] != '\0'
}

/// Law: tokenizing markup that is only text reproduces exactly its
/// characters, in order, as character tokens, closed by the end-of-file
/// token: after `n` steps the machine has consumed the first `n` characters
/// and emitted precisely them, and one step past the end it finishes.
#[verifier::rlimit(100)]
#[verifier::spinoff_prover]
pub proof fn lemma_plain_text_round_trip(input: Seq<char>, n: nat)
    requires
        plain_text(input),
    ensures
        n <= input.len() ==> iterate(init_model(input), n) == (M {
            pos: n as int,
            output: chars_tokens(input.take(n as int)),
            ..init_model(input)
        }),
        n > input.len() ==> iterate(init_model(input), n) == (M {
            pos: input.len() as int,
            output: chars_tokens(input).push(TokenM::EndOfFile),
            done: true,
            ..init_model(input)
        }),
    decreases n,
{
    broadcast use lemma_chars_tokens_facts;

    let m0 = init_model(input);
    if n == 0 {
        assert(chars_tokens(input.take(0)) =~= Seq::<TokenM>::empty());
    } else {
        lemma_plain_text_round_trip(input, (n - 1) as nat);
        let mp = iterate(m0, (n - 1) as nat);
        if n - 1 < input.len() {
            let c = input[n - 1];
            assert(mp.state == State::Data && !mp.at_eof() && mp.cur() == c);
            assert(step_spec(mp) == mp.emit_char(c).consume()) by {
                reveal(step_spec);
            }
            assert(chars_tokens(input.take(n as int)).len() == n);
            assert(input.take(n as int)[n - 1] == c);
            assert(forall|i: int|
                0 <= i < n - 1 ==> input.take(n as int)[i] == input.take(n - 1)[i]);
            assert(chars_tokens(input.take(n as int)) =~= chars_tokens(
                input.take(n - 1),
            ).push(TokenM::Character(c)));
        } else if n - 1 == input.len() {
            assert(step_spec(mp) == mp.emit_eof()) by {
                reveal(step_spec);
            }
            assert(input.take(input.len() as int) =~= input);
        } else {
            assert(step_spec(mp) == mp) by {
                reveal(step_spec);
            }
        }
    }
}

/// The round trip at the surface: the first finished state a plain-text run
/// reaches carries exactly the text as character tokens and one end-of-file
/// token.
pub proof fn lemma_plain_text_run(input: Seq<char>, n: nat)
    requires
        plain_text(input),
        iterate(init_model(input), n).done,
    ensures
        iterate(init_model(input), n).output == chars_tokens(input).push(TokenM::EndOfFile),
{
    lemma_plain_text_round_trip(input, n);
    if n <= input.len() {
        assert(!iterate(init_model(input), n).done);
    }
}

} // verus!
