use crate::de::{
    lemma_participating_group_presented, lemma_presented_only_named_participating, presented, Error,
};
use serde_plain::Error as PlainError;
use vstd::prelude::*;

verus! {

/// The text of the first pair in `entries` whose key is `name`.
pub open spec fn lookup(entries: Seq<(Seq<char>, Seq<char>)>, name: Seq<char>) -> Option<Seq<char>>
    decreases entries.len(),
{
    if entries.len() == 0 {
        None
    } else if entries[0].0 == name {
        Some(entries[0].1)
    } else {
        lookup(entries.drop_first(), name)
    }
}

/// The message given for a required field that the mapping lacks.
pub open spec fn missing_field_text(name: Seq<char>) -> Seq<char> {
    "missing field `"@ + name + "`"@
}

/// The number that decimal digits `d` stand for.
pub open spec fn digits_value(d: Seq<char>) -> int
    decreases d.len(),
{
    if d.len() == 0 {
        0
    } else {
        digits_value(d.drop_last()) * 10 + (d.last() as int - '0' as int)
    }
}

/// The value of an unsigned integer written as an optional `+` and then one or
/// more decimal digits, or `None` where `s` is not such a text or the value does
/// not fit in a `u64`.
pub open spec fn decimal_u64(s: Seq<char>) -> Option<u64> {
    let d = if s.len() > 0 && s[0] == '+' {
        s.drop_first()
    } else {
        s
    };
    if d.len() > 0 && (forall|i: int| 0 <= i < d.len() ==> '0' <= #[trigger] d[i] <= '9')
        && digits_value(d) <= u64::MAX {
        Some(digits_value(d) as u64)
    } else {
        None
    }
}

/// `lookup` finds a text exactly where some pair has the key.
pub proof fn lemma_lookup_finds_key(entries: Seq<(Seq<char>, Seq<char>)>, name: Seq<char>)
    ensures
        lookup(entries, name) is Some <==> exists|k: int|
            0 <= k < entries.len() && (#[trigger] entries[k]).0 == name,
    decreases entries.len(),
{
    if entries.len() > 0 {
        lemma_lookup_finds_key(entries.drop_first(), name);
        if entries[0].0 != name {
            if exists|k: int| 0 <= k < entries.len() && (#[trigger] entries[k]).0 == name {
                let k = choose|k: int| 0 <= k < entries.len() && (#[trigger] entries[k]).0 == name;
                assert(entries.drop_first()[k - 1] == entries[k]);
            }
        }
    }
}

/// A field is found in the mapping of a match exactly when the pattern has a
/// group of that name and the group took part in the match; so a required field
/// is missing exactly when no such group took part.
pub proof fn lemma_field_present_iff_participating(
    names: Seq<Option<Seq<char>>>,
    groups: Seq<Option<Seq<char>>>,
    name: Seq<char>,
)
    ensures
        lookup(presented(names, groups), name) is Some <==> exists|i: int|
            0 <= i < names.len() && i < groups.len() && #[trigger] names[i] == Some(name)
                && groups[i] is Some,
{
    let p = presented(names, groups);
    lemma_lookup_finds_key(p, name);
    lemma_presented_only_named_participating(names, groups);
    if exists|i: int|
        0 <= i < names.len() && i < groups.len() && #[trigger] names[i] == Some(name)
            && groups[i] is Some {
        let i = choose|i: int|
            0 <= i < names.len() && i < groups.len() && #[trigger] names[i] == Some(name)
                && groups[i] is Some;
        let text = groups[i]->Some_0;
        lemma_participating_group_presented(names, groups, i, name, text);
        let k = choose|k: int| 0 <= k < p.len() && p[k] == (name, text);
        assert(p[k].0 == name);
    }
    if lookup(p, name) is Some {
        let k = choose|k: int| 0 <= k < p.len() && (#[trigger] p[k]).0 == name;
        assert(p[k].0 == name);
    }
}

/// Relies on serde's default `de::Error::missing_field`, which builds the message
/// "missing field `<name>`".
#[verifier::external_body]
fn missing_field_message(name: &'static str) -> (r: String)
    ensures
        r@ == missing_field_text(name@),
{
    <serde::de::value::Error as serde::de::Error>::missing_field(name).to_string()
}

/// Relies on serde_plain::from_str for `u64`, which parses the text with `u64`'s
/// `FromStr`.
#[verifier::external_body]
fn plain_u64(s: &str) -> (r: Result<u64, PlainError>)
    ensures
        r.is_ok() == decimal_u64(s@).is_some(),
        r matches Ok(n) ==> decimal_u64(s@) == Some(n),
{
    serde_plain::from_str::<u64>(s)
}

/// Relies on serde_plain::from_str for `Option<u64>`: an empty text is `None`,
/// any other is parsed as a `u64`.
#[verifier::external_body]
fn plain_optional_u64(s: &str) -> (r: Result<Option<u64>, PlainError>)
    ensures
        s@.len() == 0 ==> r matches Ok(None),
        s@.len() > 0 ==> r.is_ok() == decimal_u64(s@).is_some(),
        s@.len() > 0 ==> (r matches Ok(o) ==> o == decimal_u64(s@)),
{
    serde_plain::from_str::<Option<u64>>(s)
}

/// Relies on serde_plain::from_str for `Option<String>`: an empty text is
/// `None`, any other is kept as it is.
#[verifier::external_body]
fn plain_optional_string(s: &str) -> (r: Result<Option<String>, PlainError>)
    ensures
        r.is_ok(),
        s@.len() == 0 ==> r matches Ok(None),
        s@.len() > 0 ==> r matches Ok(Some(_)),
        s@.len() > 0 ==> (r matches Ok(Some(t)) ==> t@ == s@),
{
    serde_plain::from_str::<Option<String>>(s)
}

/// The text under `name` in `entries`, if any.
pub fn field(entries: &Vec<(String, String)>, name: &str) -> (r: Option<String>)
    ensures
        r.deep_view() == lookup(entries.deep_view(), name@),
{
    let key = name.to_owned();
    let ghost ev = entries.deep_view();
    let mut i: usize = 0;
    assert(ev.skip(0) =~= ev);
    while i < entries.len()
        invariant
            i <= entries.len(),
            ev == entries.deep_view(),
            key@ == name@,
            lookup(ev, name@) == lookup(ev.skip(i as int), name@),
        decreases entries.len() - i,
    {
        assert(ev.skip(i as int).drop_first() =~= ev.skip(i + 1));
        if entries[i].0 == key {
            return Some(entries[i].1.clone());
        }
        i = i + 1;
    }
    None
}

/// A field that must be present, kept as text.
pub fn required_str(entries: &Vec<(String, String)>, name: &'static str) -> (r: Result<
    String,
    Error,
>)
    ensures
        match lookup(entries.deep_view(), name@) {
            Some(v) => r matches Ok(s) && s@ == v,
            None => r matches Err(Error::Custom(m)) && m@ == missing_field_text(name@),
        },
{
    match field(entries, name) {
        Some(v) => Ok(v),
        None => Err(Error::Custom(missing_field_message(name))),
    }
}

/// A field that may be absent, kept as text; an empty text counts as absent.
pub fn optional_str(entries: &Vec<(String, String)>, name: &str) -> (r: Option<String>)
    ensures
        match lookup(entries.deep_view(), name@) {
            Some(v) => if v.len() == 0 {
                r is None
            } else {
                r matches Some(s) && s@ == v
            },
            None => r is None,
        },
{
    match field(entries, name) {
        Some(v) => match plain_optional_string(v.as_str()) {
            Ok(o) => o,
            Err(_) => None,
        },
        None => None,
    }
}

/// A field that must be present and hold an unsigned integer.
pub fn required_u64(entries: &Vec<(String, String)>, name: &'static str) -> (r: Result<
    u64,
    Error,
>)
    ensures
        match lookup(entries.deep_view(), name@) {
            Some(v) => match decimal_u64(v) {
                Some(n) => r == Ok::<u64, Error>(n),
                None => r matches Err(Error::Plain(_)),
            },
            None => r matches Err(Error::Custom(m)) && m@ == missing_field_text(name@),
        },
{
    match field(entries, name) {
        Some(v) => match plain_u64(v.as_str()) {
            Ok(n) => Ok(n),
            Err(e) => Err(Error::Plain(e)),
        },
        None => Err(Error::Custom(missing_field_message(name))),
    }
}

/// A field that may be absent and otherwise holds an unsigned integer; an
/// empty text counts as absent.
pub fn optional_u64(entries: &Vec<(String, String)>, name: &str) -> (r: Result<
    Option<u64>,
    Error,
>)
    ensures
        match lookup(entries.deep_view(), name@) {
            Some(v) => if v.len() == 0 {
                r == Ok::<Option<u64>, Error>(None)
            } else {
                match decimal_u64(v) {
                    Some(n) => r == Ok::<Option<u64>, Error>(Some(n)),
                    None => r matches Err(Error::Plain(_)),
                }
            },
            None => r == Ok::<Option<u64>, Error>(None),
        },
{
    match field(entries, name) {
        Some(v) => match plain_optional_u64(v.as_str()) {
            Ok(o) => Ok(o),
            Err(e) => Err(Error::Plain(e)),
        },
        None => Ok(None),
    }
}

} // verus!
