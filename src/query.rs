use vstd::prelude::*;
use vstd::string::*;
use crate::verdict::{Denial, DenialModel, QueryField};

verus! {

pub open spec fn pairs_view(v: Seq<(String, String)>) -> Seq<(Seq<char>, Seq<char>)> {
    v.map_values(|p: (String, String)| (p.0@, p.1@))
}

/// The decoded `name=value` pairs of a form-encoded query string, in order,
/// or the decoder's error message: what `serde_urlencoded::from_str` gives.
pub uninterp spec fn form_pairs_of(query: Seq<char>) -> Result<
    Seq<(Seq<char>, Seq<char>)>,
    Seq<char>,
>;

/// Relies on `serde_urlencoded::from_str` to decode the query into its pairs,
/// and on its error's `Display` for the message; both depend on the text alone.
#[verifier::external_body]
pub(crate) fn decode_form(query: &str) -> (r: Result<Vec<(String, String)>, String>)
    ensures
        match r {
            Ok(v) => form_pairs_of(query@) == Ok::<_, Seq<char>>(pairs_view(v@)),
            Err(m) => form_pairs_of(query@) == Err::<Seq<(Seq<char>, Seq<char>)>, _>(m@),
        },
{
    match serde_urlencoded::from_str::<Vec<(String, String)>>(query) {
        Ok(v) => Ok(v),
        Err(e) => Err(e.to_string()),
    }
}

/// The key under which a field stands in the query.
pub open spec fn field_key(f: QueryField) -> Seq<char> {
    match f {
        QueryField::Name => "name"@,
        QueryField::Key => "key"@,
    }
}

/// The values given for `key`, in the order of the pairs.
pub open spec fn field_values(pairs: Seq<(Seq<char>, Seq<char>)>, key: Seq<char>) -> Seq<Seq<char>>
    decreases pairs.len(),
{
    if pairs.len() == 0 {
        Seq::empty()
    } else {
        let rest = field_values(pairs.drop_last(), key);
        if pairs.last().0 == key {
            rest.push(pairs.last().1)
        } else {
            rest
        }
    }
}

/// The single value of field `f`: absent or repeated is an error.
pub open spec fn field_spec(pairs: Seq<(Seq<char>, Seq<char>)>, f: QueryField) -> Result<
    Seq<char>,
    DenialModel,
> {
    let vs = field_values(pairs, field_key(f));
    if vs.len() == 0 {
        Err(DenialModel::MissingField(f))
    } else if vs.len() > 1 {
        Err(DenialModel::DuplicateField(f))
    } else {
        Ok(vs[0])
    }
}

fn key_string(f: QueryField) -> (r: String)
    ensures
        r@ == field_key(f),
{
    match f {
        QueryField::Name => String::from_str("name"),
        QueryField::Key => String::from_str("key"),
    }
}

/// Reads the single value of field `f` out of the decoded pairs.
pub fn query_field(pairs: &Vec<(String, String)>, f: QueryField) -> (r: Result<String, Denial>)
    ensures
        match r {
            Ok(s) => field_spec(pairs_view(pairs@), f) == Ok::<_, DenialModel>(s@),
            Err(d) => field_spec(pairs_view(pairs@), f) == Err::<Seq<char>, _>(d@),
        },
{
    let key = key_string(f);
    let ghost pv = pairs_view(pairs@);
    let mut found: Option<String> = None;
    let mut repeated = false;
    let mut i: usize = 0;
    while i < pairs.len()
        invariant
            i <= pairs.len(),
            pv == pairs_view(pairs@),
            key@ == field_key(f),
            found is None <==> field_values(pv.subrange(0, i as int), key@).len() == 0,
            found matches Some(s) ==> s@ == field_values(pv.subrange(0, i as int), key@)[0],
            repeated <==> field_values(pv.subrange(0, i as int), key@).len() > 1,
        decreases pairs.len() - i,
    {
        let ghost before = field_values(pv.subrange(0, i as int), key@);
        assert(pv.subrange(0, i + 1).drop_last() =~= pv.subrange(0, i as int));
        assert(pv.subrange(0, i + 1).last() == pv[i as int]);
        if pairs[i].0 == key {
            if found.is_some() {
                repeated = true;
            } else {
                found = Some(pairs[i].1.clone());
            }
        }
        i = i + 1;
    }
    assert(pv.subrange(0, i as int) =~= pv);
    if repeated {
        Err(Denial::DuplicateField(f))
    } else {
        match found {
            Some(s) => Ok(s),
            None => Err(Denial::MissingField(f)),
        }
    }
}

} // verus!
