//! The command parser: raw message text to a typed action.
//!
//! A message triggers a query only when its first whitespace-delimited token
//! is a recognized command word and a second token follows; the second token,
//! taken verbatim, becomes the query.

use vstd::prelude::*;
use vstd::string::StrSliceExecFns;
use vstd::string::StringExecFns;
use crate::text::{drop_tok, skip_ws, str_eq, take_tok, wspace_char};

verus! {

/// What a recognized command asks for.
#[derive(Debug, PartialEq, Eq)]
pub enum Action {
    /// Look up a built-in function signature by name.
    NativeQuery(String),
    /// Look up structured documentation for a named entity.
    DocQuery(String),
}

/// Why a message is no command.  Both kinds are silent: the message is
/// simply not answered.
#[derive(Debug, PartialEq, Eq, Structural)]
pub enum ParseError {
    /// Fewer than two whitespace-delimited tokens.
    MissingArgument,
    /// The first token is not a recognized command word.
    NotATrigger,
}

/// The first whitespace-delimited token of `s`.
pub open spec fn first_token(s: Seq<char>) -> Seq<char> {
    take_tok(skip_ws(s))
}

/// What remains of `s` after its first token.
pub open spec fn rest_after_first(s: Seq<char>) -> Seq<char> {
    drop_tok(skip_ws(s))
}

/// The second whitespace-delimited token of `s`.
pub open spec fn second_token(s: Seq<char>) -> Seq<char> {
    take_tok(skip_ws(rest_after_first(s)))
}

/// Whether `s` holds at least two whitespace-delimited tokens.
pub open spec fn has_two_tokens(s: Seq<char>) -> bool {
    first_token(s).len() > 0 && second_token(s).len() > 0
}

/// The command words that ask for a native search.
pub open spec fn is_native_trigger(t: Seq<char>) -> bool {
    t == "!j"@ || t == "!jass"@
}

/// The command words that ask for a documentation lookup.
pub open spec fn is_doc_trigger(t: Seq<char>) -> bool {
    t == "!d"@ || t == "!doc"@
}

/// The recognized command words.
pub open spec fn is_trigger(t: Seq<char>) -> bool {
    is_native_trigger(t) || is_doc_trigger(t)
}

/// What [`parse`] returns on input `s`: the single relation its contract
/// states.
pub open spec fn parse_ok(s: Seq<char>, r: Result<Action, ParseError>) -> bool {
    let t1 = first_token(s);
    let t2 = second_token(s);
    if t1.len() == 0 || t2.len() == 0 {
        r == Err::<Action, ParseError>(ParseError::MissingArgument)
    } else if is_native_trigger(t1) {
        r matches Ok(Action::NativeQuery(q)) && q@ == t2
    } else if is_doc_trigger(t1) {
        r matches Ok(Action::DocQuery(q)) && q@ == t2
    } else {
        r == Err::<Action, ParseError>(ParseError::NotATrigger)
    }
}

/// Turns message text into an action, or says why the message is ignored.
pub fn parse(input: &str) -> (r: Result<Action, ParseError>)
    ensures
        parse_ok(input@, r),
{
    let s = input;
    let n: usize = s.unicode_len();
    proof {
        assert(s@.skip(0) =~= s@);
    }
    let mut i: usize = 0;
    while i < n && wspace_char(s.get_char(i))
        invariant
            n == s@.len(),
            i <= n,
            skip_ws(s@) == skip_ws(s@.skip(i as int)),
        decreases n - i,
    {
        proof {
            assert(s@.skip(i as int).drop_first() =~= s@.skip(i as int + 1));
        }
        i = i + 1;
    }
    proof {
        assert(skip_ws(s@.skip(i as int)) == s@.skip(i as int));
    }
    if i == n {
        proof {
            assert(s@.skip(i as int) =~= Seq::<char>::empty());
            assert(first_token(s@).len() == 0);
        }
        return Err(ParseError::MissingArgument);
    }
    let mut j: usize = i;
    proof {
        assert(s@.subrange(i as int, i as int) + take_tok(s@.skip(i as int)) =~= take_tok(
            s@.skip(i as int),
        ));
    }
    while j < n && !wspace_char(s.get_char(j))
        invariant
            n == s@.len(),
            i <= j <= n,
            take_tok(s@.skip(i as int)) == s@.subrange(i as int, j as int) + take_tok(
                s@.skip(j as int),
            ),
            drop_tok(s@.skip(i as int)) == drop_tok(s@.skip(j as int)),
        decreases n - j,
    {
        proof {
            let sj = s@.skip(j as int);
            assert(sj[0] == s@[j as int]);
            assert(sj.drop_first() =~= s@.skip(j as int + 1));
            assert(take_tok(sj) == seq![sj[0]] + take_tok(sj.drop_first()));
            assert(s@.subrange(i as int, j as int) + take_tok(sj) =~= s@.subrange(
                i as int,
                j as int + 1,
            ) + take_tok(s@.skip(j as int + 1)));
        }
        j = j + 1;
    }
    proof {
        assert(take_tok(s@.skip(j as int)) =~= Seq::<char>::empty());
        assert(take_tok(s@.skip(i as int)) =~= s@.subrange(i as int, j as int));
        assert(drop_tok(s@.skip(j as int)) == s@.skip(j as int));
        assert(first_token(s@) == s@.subrange(i as int, j as int));
        assert(rest_after_first(s@) == s@.skip(j as int));
        assert(i < j);
    }
    let tok1 = s.substring_char(i, j);
    let mut k: usize = j;
    while k < n && wspace_char(s.get_char(k))
        invariant
            n == s@.len(),
            j <= k <= n,
            skip_ws(s@.skip(j as int)) == skip_ws(s@.skip(k as int)),
        decreases n - k,
    {
        proof {
            assert(s@.skip(k as int).drop_first() =~= s@.skip(k as int + 1));
        }
        k = k + 1;
    }
    proof {
        assert(skip_ws(s@.skip(k as int)) == s@.skip(k as int));
    }
    if k == n {
        proof {
            assert(s@.skip(k as int) =~= Seq::<char>::empty());
            assert(second_token(s@).len() == 0);
        }
        return Err(ParseError::MissingArgument);
    }
    let mut m: usize = k;
    proof {
        assert(s@.subrange(k as int, k as int) + take_tok(s@.skip(k as int)) =~= take_tok(
            s@.skip(k as int),
        ));
    }
    while m < n && !wspace_char(s.get_char(m))
        invariant
            n == s@.len(),
            k <= m <= n,
            take_tok(s@.skip(k as int)) == s@.subrange(k as int, m as int) + take_tok(
                s@.skip(m as int),
            ),
        decreases n - m,
    {
        proof {
            let sm = s@.skip(m as int);
            assert(sm[0] == s@[m as int]);
            assert(sm.drop_first() =~= s@.skip(m as int + 1));
            assert(take_tok(sm) == seq![sm[0]] + take_tok(sm.drop_first()));
            assert(s@.subrange(k as int, m as int) + take_tok(sm) =~= s@.subrange(
                k as int,
                m as int + 1,
            ) + take_tok(s@.skip(m as int + 1)));
        }
        m = m + 1;
    }
    proof {
        assert(take_tok(s@.skip(m as int)) =~= Seq::<char>::empty());
        assert(take_tok(s@.skip(k as int)) =~= s@.subrange(k as int, m as int));
        assert(second_token(s@) == s@.subrange(k as int, m as int));
        assert(k < m);
    }
    let tok2 = s.substring_char(k, m);
    let query = String::from_str(tok2);
    if str_eq(tok1, "!j") || str_eq(tok1, "!jass") {
        Ok(Action::NativeQuery(query))
    } else if str_eq(tok1, "!d") || str_eq(tok1, "!doc") {
        Ok(Action::DocQuery(query))
    } else {
        Err(ParseError::NotATrigger)
    }
}

} // verus!
