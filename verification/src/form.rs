//! Parsing of `application/x-www-form-urlencoded` request bodies into the
//! raw `name` and `email` fields of a subscription request.
//!
//! A body is a `&`-separated list of `key=value` segments; `+` stands for a
//! space and `%XY` for the character with hex code `XY` (ASCII range only).
//! Unknown keys are ignored; a repeated or undecodable field, and any other
//! malformed segment, rejects the body.

use vstd::prelude::*;
use vstd::string::*;
use crate::domain::ValidationError;
use crate::strutil::push_char;

verus! {

/// The raw (already decoded) fields of a subscription request.
pub struct FormData {
    pub email: String,
    pub name: String,
}

/// What a `FormData` holds, as plain sequences.
pub struct FormDataModel {
    pub email: Seq<char>,
    pub name: Seq<char>,
}

impl View for FormData {
    type V = FormDataModel;

    open spec fn view(&self) -> FormDataModel {
        FormDataModel { email: self.email@, name: self.name@ }
    }
}

/// The value of a hex digit, or -1 for any other character.
pub open spec fn spec_hex_val(c: char) -> int {
    let u = c as int;
    if 48 <= u && u <= 57 {
        u - 48
    } else if 65 <= u && u <= 70 {
        u - 55
    } else if 97 <= u && u <= 102 {
        u - 87
    } else {
        -1
    }
}

/// Percent-decoding of one urlencoded token: `+` becomes a space, `%XY`
/// the character with hex code `XY` (rejected outside the ASCII range),
/// and every other character stands for itself. `None` when an escape is
/// malformed.
pub open spec fn spec_decode(s: Seq<char>) -> Option<Seq<char>>
    decreases s.len(),
{
    if s.len() == 0 {
        Some(Seq::empty())
    } else if s[0] == '%' {
        if s.len() >= 3 && spec_hex_val(s[1]) >= 0 && spec_hex_val(s[2]) >= 0 && spec_hex_val(
            s[1],
        ) * 16 + spec_hex_val(s[2]) < 128 {
            let c = (spec_hex_val(s[1]) * 16 + spec_hex_val(s[2])) as char;
            match spec_decode(s.skip(3)) {
                Some(t) => Some(seq![c] + t),
                None => None,
            }
        } else {
            None
        }
    } else {
        let c = if s[0] == '+' {
            ' '
        } else {
            s[0]
        };
        match spec_decode(s.skip(1)) {
            Some(t) => Some(seq![c] + t),
            None => None,
        }
    }
}

/// The position of the first occurrence of `c` in `s`, or -1 if absent.
pub open spec fn spec_find(s: Seq<char>, c: char) -> int
    decreases s.len(),
{
    if s.len() == 0 {
        -1
    } else if s[0] == c {
        0
    } else {
        let r = spec_find(s.skip(1), c);
        if r == -1 {
            -1
        } else {
            r + 1
        }
    }
}

pub proof fn lemma_find(s: Seq<char>, c: char)
    ensures
        spec_find(s, c) == -1 ==> forall|i: int| 0 <= i < s.len() ==> s[i] != c,
        spec_find(s, c) != -1 ==> 0 <= spec_find(s, c) < s.len() && s[spec_find(s, c)] == c
            && forall|i: int| 0 <= i < spec_find(s, c) ==> s[i] != c,
    decreases s.len(),
{
    if s.len() > 0 && s[0] != c {
        lemma_find(s.skip(1), c);
        let r = spec_find(s.skip(1), c);
        if r == -1 {
            assert forall|i: int| 0 <= i < s.len() implies s[i] != c by {
                if i > 0 {
                    assert(s.skip(1)[i - 1] == s[i]);
                    assert(s.skip(1)[i - 1] != c);
                }
            }
        } else {
            assert(s[spec_find(s, c)] == s.skip(1)[r]);
            assert forall|i: int| 0 <= i < spec_find(s, c) implies s[i] != c by {
                if i > 0 {
                    assert(s.skip(1)[i - 1] == s[i]);
                    assert(s.skip(1)[i - 1] != c);
                }
            }
        }
    }
}

/// `spec_find` returns exactly the first position where `c` occurs.
pub proof fn lemma_find_at(s: Seq<char>, c: char, i: int)
    requires
        0 <= i < s.len(),
        s[i] == c,
        forall|j: int| 0 <= j < i ==> s[j] != c,
    ensures
        spec_find(s, c) == i,
{
    lemma_find(s, c);
}

/// One `key=value` segment, split at the first `=`; a segment without `=`
/// is a key with an empty value.
pub open spec fn spec_split_pair(p: Seq<char>) -> (Seq<char>, Seq<char>) {
    let e = spec_find(p, '=');
    if 0 <= e && e < p.len() {
        (p.take(e), p.skip(e + 1))
    } else {
        (p, Seq::empty())
    }
}

/// The `&`-separated segments of a body, each split into key and value.
pub open spec fn spec_pairs(s: Seq<char>) -> Seq<(Seq<char>, Seq<char>)>
    decreases s.len(),
{
    if s.len() == 0 {
        Seq::empty()
    } else {
        let f = spec_find(s, '&');
        if 0 <= f && f < s.len() {
            seq![spec_split_pair(s.take(f))] + spec_pairs(s.skip(f + 1))
        } else {
            seq![spec_split_pair(s)]
        }
    }
}

/// Decodes every pair and picks out the `name` and `email` fields.
/// An undecodable key or value, or a repeated field, rejects the body.
pub open spec fn spec_collect(pairs: Seq<(Seq<char>, Seq<char>)>) -> Result<
    (Option<Seq<char>>, Option<Seq<char>>),
    ValidationError,
>
    decreases pairs.len(),
{
    if pairs.len() == 0 {
        Ok((None, None))
    } else {
        let kd = spec_decode(pairs[0].0);
        let vd = spec_decode(pairs[0].1);
        if kd is None || vd is None {
            Err(ValidationError::MalformedBody)
        } else {
            match spec_collect(pairs.skip(1)) {
                Err(e) => Err(e),
                Ok((n, m)) => {
                    if kd == Some("name"@) {
                        if n is Some {
                            Err(ValidationError::MalformedBody)
                        } else {
                            Ok((vd, m))
                        }
                    } else if kd == Some("email"@) {
                        if m is Some {
                            Err(ValidationError::MalformedBody)
                        } else {
                            Ok((n, vd))
                        }
                    } else {
                        Ok((n, m))
                    }
                },
            }
        }
    }
}

/// The whole parse: a missing `name` or `email` field rejects the body,
/// and an empty body misses both.
pub open spec fn spec_parse_form(body: Seq<char>) -> Result<FormDataModel, ValidationError> {
    match spec_collect(spec_pairs(body)) {
        Err(e) => Err(e),
        Ok((n, m)) => {
            if n is None {
                Err(ValidationError::MissingName)
            } else if m is None {
                Err(ValidationError::MissingEmail)
            } else {
                Ok(FormDataModel { email: m.unwrap(), name: n.unwrap() })
            }
        },
    }
}

fn hex_val(c: char) -> (r: i8)
    ensures
        r as int == spec_hex_val(c),
{
    let u = c as u32;
    if 48 <= u && u <= 57 {
        (u - 48) as i8
    } else if 65 <= u && u <= 70 {
        (u - 55) as i8
    } else if 97 <= u && u <= 102 {
        (u - 87) as i8
    } else {
        -1
    }
}

/// Appends the decoding of `s[from..to]` to `out`; false on a malformed
/// escape (`out` is then left half-written and unused by callers).
fn decode_range(s: &str, from: usize, to: usize, out: &mut String) -> (ok: bool)
    requires
        from <= to <= s@.len(),
    ensures
        match spec_decode(s@.subrange(from as int, to as int)) {
            Some(t) => ok && final(out)@ == old(out)@ + t,
            None => !ok,
        },
    decreases to - from,
{
    let ghost w = s@.subrange(from as int, to as int);
    if from == to {
        proof {
            assert(out@ =~= out@ + Seq::<char>::empty());
        }
        return true;
    }
    let c = s.get_char(from);
    proof {
        assert(w[0] == s@[from as int]);
    }
    if c == '%' {
        if to - from < 3 {
            return false;
        }
        let h1 = hex_val(s.get_char(from + 1));
        let h2 = hex_val(s.get_char(from + 2));
        proof {
            assert(w[1] == s@[from + 1 as int]);
            assert(w[2] == s@[from + 2 as int]);
        }
        if h1 < 0 || h2 < 0 {
            return false;
        }
        let v = (h1 as u8) * 16 + (h2 as u8);
        if v >= 128 {
            return false;
        }
        let ghost prev = out@;
        push_char(out, v as char);
        let rest_ok = decode_range(s, from + 3, to, out);
        proof {
            assert(s@.subrange(from + 3 as int, to as int) =~= w.skip(3));
        }
        if !rest_ok {
            return false;
        }
        proof {
            let t = spec_decode(w.skip(3)).unwrap();
            assert(out@ =~= prev + (seq![(spec_hex_val(w[1]) * 16 + spec_hex_val(w[2])) as char]
                + t));
        }
        true
    } else {
        let d = if c == '+' {
            ' '
        } else {
            c
        };
        let ghost prev = out@;
        push_char(out, d);
        let rest_ok = decode_range(s, from + 1, to, out);
        proof {
            assert(s@.subrange(from + 1 as int, to as int) =~= w.skip(1));
        }
        if !rest_ok {
            return false;
        }
        proof {
            let t = spec_decode(w.skip(1)).unwrap();
            assert(out@ =~= prev + (seq![if w[0] == '+' {
                ' '
            } else {
                w[0]
            }] + t));
        }
        true
    }
}

/// The position of the first `c` in `s[from..to]`, or `to` if absent.
fn find_char(s: &str, from: usize, to: usize, c: char) -> (r: usize)
    requires
        from <= to <= s@.len(),
    ensures
        from <= r <= to,
        ({
            let f = spec_find(s@.subrange(from as int, to as int), c);
            if f == -1 {
                r == to
            } else {
                r == from + f && r < to
            }
        }),
{
    let ghost w = s@.subrange(from as int, to as int);
    let mut i: usize = from;
    while i < to
        invariant
            from <= i <= to <= s@.len(),
            w == s@.subrange(from as int, to as int),
            forall|j: int| 0 <= j < i - from ==> w[j] != c,
        decreases to - i,
    {
        let d = s.get_char(i);
        proof {
            assert(w[i - from] == s@[i as int]);
        }
        if d == c {
            proof {
                lemma_find_at(w, c, i - from);
            }
            return i;
        }
        i += 1;
    }
    proof {
        lemma_find(w, c);
        if spec_find(w, c) != -1 {
            assert(w[spec_find(w, c)] == c);
            assert(false);
        }
    }
    to
}

pub open spec fn opt_view(o: Option<String>) -> Option<Seq<char>> {
    match o {
        Some(s) => Some(s@),
        None => None,
    }
}

/// Collects the decoded `name` and `email` fields of `s[from..]`.
fn collect_pairs(s: &str, from: usize) -> (r: Result<
    (Option<String>, Option<String>),
    ValidationError,
>)
    requires
        from <= s@.len(),
    ensures
        ({
            let sp = spec_collect(spec_pairs(s@.skip(from as int)));
            match r {
                Ok(p) => sp == Ok::<(Option<Seq<char>>, Option<Seq<char>>), ValidationError>(
                    (opt_view(p.0), opt_view(p.1)),
                ),
                Err(e) => sp == Err::<(Option<Seq<char>>, Option<Seq<char>>), ValidationError>(e),
            }
        }),
    decreases s@.len() - from,
{
    let ghost w = s@.skip(from as int);
    let len = s.unicode_len();
    if from == len {
        proof {
            assert(w =~= Seq::<char>::empty());
        }
        return Ok((None, None));
    }
    let amp = find_char(s, from, len, '&');
    proof {
        assert(w =~= s@.subrange(from as int, len as int));
    }
    let eq = find_char(s, from, amp, '=');
    let ghost seg = if spec_find(w, '&') == -1 {
        w
    } else {
        w.take(spec_find(w, '&'))
    };
    proof {
        assert(s@.subrange(from as int, amp as int) =~= seg);
    }
    let ghost pair = spec_split_pair(seg);
    let key_end = eq;
    let val_start = if eq == amp {
        amp
    } else {
        eq + 1
    };
    proof {
        if spec_find(seg, '=') == -1 {
            assert(s@.subrange(from as int, key_end as int) =~= pair.0);
            assert(s@.subrange(val_start as int, amp as int) =~= pair.1);
        } else {
            assert(s@.subrange(from as int, key_end as int) =~= pair.0);
            assert(s@.subrange(val_start as int, amp as int) =~= pair.1);
        }
    }
    let mut key = String::new();
    if !decode_range(s, from, key_end, &mut key) {
        return Err(ValidationError::MalformedBody);
    }
    let mut val = String::new();
    if !decode_range(s, val_start, amp, &mut val) {
        return Err(ValidationError::MalformedBody);
    }
    proof {
        assert(key@ =~= spec_decode(pair.0).unwrap());
        assert(val@ =~= spec_decode(pair.1).unwrap());
    }
    let rest_from = if amp == len {
        len
    } else {
        amp + 1
    };
    proof {
        if spec_find(w, '&') != -1 {
            assert(s@.skip(rest_from as int) =~= w.skip(spec_find(w, '&') + 1));
        } else {
            assert(spec_pairs(w) =~= seq![pair]);
        }
        assert(spec_pairs(w)[0] == pair);
        assert(spec_pairs(w).skip(1) =~= spec_pairs(s@.skip(rest_from as int)));
    }
    let rest = collect_pairs(s, rest_from);
    match rest {
        Err(e) => Err(e),
        Ok((n, m)) => {
            let name_key: String = "name".to_owned();
            let email_key: String = "email".to_owned();
            if key == name_key {
                if n.is_some() {
                    Err(ValidationError::MalformedBody)
                } else {
                    Ok((Some(val), m))
                }
            } else if key == email_key {
                if m.is_some() {
                    Err(ValidationError::MalformedBody)
                } else {
                    Ok((n, Some(val)))
                }
            } else {
                Ok((n, m))
            }
        },
    }
}

/// Parses a request body into its `name` and `email` fields, rejecting a
/// malformed body and one that misses either field.
pub fn parse_form_body(body: &str) -> (r: Result<FormData, ValidationError>)
    ensures
        match r {
            Ok(f) => spec_parse_form(body@) == Ok::<FormDataModel, ValidationError>(f@),
            Err(e) => spec_parse_form(body@) == Err::<FormDataModel, ValidationError>(e),
        },
{
    proof {
        assert(body@.skip(0) =~= body@);
    }
    match collect_pairs(body, 0) {
        Err(e) => Err(e),
        Ok((n, m)) => match (n, m) {
            (None, _) => Err(ValidationError::MissingName),
            (Some(_), None) => Err(ValidationError::MissingEmail),
            (Some(name), Some(email)) => Ok(FormData { email, name }),
        },
    }
}

} // verus!
