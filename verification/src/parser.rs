//! Credential parser: turns a raw credential byte string of the form
//! `"<method> <user>:<password>"` into its three pieces, rejecting any
//! string whose space or colon structure is off.

use vstd::prelude::*;

use crate::text::{
    count_byte, count_occurrences, find_first, first_pos, lemma_first_pos_in_bounds,
    lemma_lower_preserves_count, lemma_lower_preserves_first_pos, lemma_lower_skip,
    lemma_lower_take, lower, subvec,
};
use crate::AuthError;

verus! {

/// The byte that separates the method from the user/password pair.
pub const SPACE: u8 = 32;

/// The byte that separates the username from the password.
pub const COLON: u8 = 58;

/// A structurally valid credential, split into its three raw pieces.
/// Empty pieces are structurally valid and pass through unchanged.
#[derive(Debug, PartialEq, Eq)]
pub struct ParsedCredential {
    pub method: Vec<u8>,
    pub username: Vec<u8>,
    pub password: Vec<u8>,
}

/// What parsing returns on a given raw string: the method, username and
/// password pieces when the string holds exactly one space, and exactly one
/// colon after that space; `MalformedCount` otherwise.
pub open spec fn parse_spec(raw: Seq<u8>) -> Result<(Seq<u8>, Seq<u8>, Seq<u8>), AuthError> {
    if count_byte(raw, SPACE) != 1 {
        Err(AuthError::MalformedCount)
    } else {
        let p = first_pos(raw, SPACE);
        let rest = raw.skip(p + 1);
        if count_byte(rest, COLON) != 1 {
            Err(AuthError::MalformedCount)
        } else {
            let q = first_pos(rest, COLON);
            Ok((raw.take(p), rest.take(q), rest.skip(q + 1)))
        }
    }
}

/// Splits `raw` on the single space, and the remainder on the single colon.
///
/// Any raw string with a space count other than one, or a colon count other
/// than one in the piece after the space, is rejected with `MalformedCount`;
/// no other validation of character set or length is performed.
pub fn parse_credentials(raw: &Vec<u8>) -> (r: Result<ParsedCredential, AuthError>)
    ensures
        (r matches Ok(c) ==> parse_spec(raw@) == Ok::<_, AuthError>(
            (c.method@, c.username@, c.password@),
        )),
        (r matches Err(e) ==> parse_spec(raw@) == Err::<(Seq<u8>, Seq<u8>, Seq<u8>), _>(e)),
        count_byte(raw@, SPACE) != 1 ==> r == Err::<ParsedCredential, AuthError>(
            AuthError::MalformedCount,
        ),
        count_byte(raw@, SPACE) == 1 && count_byte(
            raw@.skip(first_pos(raw@, SPACE) + 1),
            COLON,
        ) != 1 ==> r == Err::<ParsedCredential, AuthError>(AuthError::MalformedCount),
{
    let nspaces = count_occurrences(raw, SPACE);
    if nspaces != 1 {
        return Err(AuthError::MalformedCount);
    }
    let p = find_first(raw, SPACE);
    let n = raw.len();
    assert(p < n);
    let rest = subvec(raw, p + 1, n);
    proof {
        assert(rest@ =~= raw@.skip(p as int + 1));
    }
    let ncolons = count_occurrences(&rest, COLON);
    if ncolons != 1 {
        return Err(AuthError::MalformedCount);
    }
    let q = find_first(&rest, COLON);
    let m = rest.len();
    assert(q < m);
    let method = subvec(raw, 0, p);
    let username = subvec(&rest, 0, q);
    let password = subvec(&rest, q + 1, m);
    proof {
        assert(method@ =~= raw@.take(p as int));
        assert(username@ =~= rest@.take(q as int));
        assert(password@ =~= rest@.skip(q as int + 1));
    }
    Ok(ParsedCredential { method, username, password })
}

/// Parsing is case-insensitive: two raw strings that agree up to ASCII case
/// fail identically, and when they parse, their pieces again agree up to
/// ASCII case. The delimiters are not letters, so lower-casing moves neither
/// the space nor the colon.
pub proof fn lemma_parse_case_insensitive(r1: Seq<u8>, r2: Seq<u8>)
    requires
        lower(r1) == lower(r2),
    ensures
        parse_spec(r1) is Ok <==> parse_spec(r2) is Ok,
        (parse_spec(r1) matches Err(e1) ==> (parse_spec(r2) matches Err(e2) ==> e1 == e2)),
        (parse_spec(r1) matches Ok(p1) ==> (parse_spec(r2) matches Ok(p2) ==> (lower(p1.0)
            == lower(p2.0) && lower(p1.1) == lower(p2.1) && lower(p1.2) == lower(p2.2)))),
{
    lemma_lower_preserves_count(r1, SPACE);
    lemma_lower_preserves_count(r2, SPACE);
    assert(count_byte(r1, SPACE) == count_byte(r2, SPACE));
    if count_byte(r1, SPACE) == 1 {
        lemma_lower_preserves_first_pos(r1, SPACE);
        lemma_lower_preserves_first_pos(r2, SPACE);
        let p = first_pos(r1, SPACE);
        assert(p == first_pos(r2, SPACE));
        lemma_first_pos_in_bounds(r1, SPACE);
        lemma_first_pos_in_bounds(r2, SPACE);
        assert(r1.len() == lower(r1).len() && r2.len() == lower(r2).len());
        assert(r1.len() == r2.len());
        let rest1 = r1.skip(p + 1);
        let rest2 = r2.skip(p + 1);
        lemma_lower_skip(r1, p + 1);
        lemma_lower_skip(r2, p + 1);
        assert(lower(rest1) == lower(rest2));
        lemma_lower_preserves_count(rest1, COLON);
        lemma_lower_preserves_count(rest2, COLON);
        assert(count_byte(rest1, COLON) == count_byte(rest2, COLON));
        if count_byte(rest1, COLON) == 1 {
            lemma_lower_preserves_first_pos(rest1, COLON);
            lemma_lower_preserves_first_pos(rest2, COLON);
            let q = first_pos(rest1, COLON);
            assert(q == first_pos(rest2, COLON));
            lemma_first_pos_in_bounds(rest1, COLON);
            lemma_lower_take(r1, p);
            lemma_lower_take(r2, p);
            lemma_lower_take(rest1, q);
            lemma_lower_take(rest2, q);
            lemma_lower_skip(rest1, q + 1);
            lemma_lower_skip(rest2, q + 1);
            assert(lower(r1.take(p)) == lower(r2.take(p)));
            assert(lower(rest1.take(q)) == lower(rest2.take(q)));
            assert(lower(rest1.skip(q + 1)) == lower(rest2.skip(q + 1)));
            assert(parse_spec(r1) == Ok::<_, AuthError>((r1.take(p), rest1.take(q), rest1.skip(q + 1))));
            assert(parse_spec(r2) == Ok::<_, AuthError>((r2.take(p), rest2.take(q), rest2.skip(q + 1))));
        }
    }
}

} // verus!
