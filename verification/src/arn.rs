//! Decomposition of the inbound method ARN into the context fields the policy
//! builder is scoped to.

use vstd::prelude::*;

verus! {

/// Why a method ARN was rejected.
#[derive(Clone, Copy, PartialEq, Eq, Structural, Debug)]
pub enum ArnError {
    MalformedArn,
}

/// `s` split at every occurrence of `sep`; n separators give n + 1 pieces.
pub open spec fn split_on(s: Seq<char>, sep: char) -> Seq<Seq<char>>
    decreases s.len(),
{
    if s.len() == 0 {
        seq![Seq::<char>::empty()]
    } else if s[0] == sep {
        seq![Seq::<char>::empty()] + split_on(s.drop_first(), sep)
    } else {
        let rest = split_on(s.drop_first(), sep);
        seq![seq![s[0]] + rest[0]] + rest.drop_first()
    }
}

/// A string without the separator splits into itself alone.
proof fn lemma_split_no_sep(s: Seq<char>, sep: char)
    requires
        forall|j: int| 0 <= j < s.len() ==> s[j] != sep,
    ensures
        split_on(s, sep) == seq![s],
    decreases s.len(),
{
    if s.len() == 0 {
        assert(s =~= Seq::<char>::empty());
    } else {
        let d = s.drop_first();
        assert forall|j: int| 0 <= j < d.len() implies d[j] != sep by {
            assert(d[j] == s[j + 1]);
        }
        lemma_split_no_sep(d, sep);
        assert(seq![s[0]] + d =~= s);
        assert(split_on(s, sep) =~= seq![s]);
    }
}

/// Splitting at the first occurrence of the separator: the piece before it,
/// then the split of what follows it.
proof fn lemma_split_at_first(s: Seq<char>, sep: char, i: int)
    requires
        0 <= i < s.len(),
        s[i] == sep,
        forall|j: int| 0 <= j < i ==> s[j] != sep,
    ensures
        split_on(s, sep) == seq![s.subrange(0, i)] + split_on(
            s.subrange(i + 1, s.len() as int),
            sep,
        ),
    decreases i,
{
    if i == 0 {
        assert(s.subrange(0, 0) =~= Seq::<char>::empty());
        assert(s.drop_first() =~= s.subrange(1, s.len() as int));
        assert(split_on(s, sep) =~= seq![s.subrange(0, 0)] + split_on(
            s.subrange(1, s.len() as int),
            sep,
        ));
    } else {
        let d = s.drop_first();
        assert(d[i - 1] == s[i]);
        assert forall|j: int| 0 <= j < i - 1 implies d[j] != sep by {
            assert(d[j] == s[j + 1]);
        }
        lemma_split_at_first(d, sep, i - 1);
        let rest = split_on(d, sep);
        let tail_split = split_on(d.subrange(i, d.len() as int), sep);
        assert(rest[0] == d.subrange(0, i - 1));
        assert(rest.drop_first() =~= tail_split);
        assert(seq![s[0]] + d.subrange(0, i - 1) =~= s.subrange(0, i));
        assert(d.subrange(i, d.len() as int) =~= s.subrange(i + 1, s.len() as int));
        assert(split_on(s, sep) =~= seq![s.subrange(0, i)] + split_on(
            s.subrange(i + 1, s.len() as int),
            sep,
        ));
    }
}

/// Splits `s` at every occurrence of `sep`, as `split_on` describes.
pub fn split_str(s: &str, sep: char) -> (r: Vec<String>)
    ensures
        r@.map_values(|t: String| t@) == split_on(s@, sep),
        r@.len() >= 1,
    decreases s@.len(),
{
    let n = s.unicode_len();
    let mut i: usize = 0;
    while i < n
        invariant
            i <= n,
            n == s@.len(),
            forall|j: int| 0 <= j < i ==> s@[j] != sep,
        decreases n - i,
    {
        if s.get_char(i) == sep {
            let head = s.substring_char(0, i);
            let tail = s.substring_char(i + 1, n);
            let mut r = split_str(tail, sep);
            r.insert(0, head.to_owned());
            proof {
                lemma_split_at_first(s@, sep, i as int);
                assert(r@.map_values(|t: String| t@) =~= split_on(s@, sep));
            }
            return r;
        }
        i += 1;
    }
    let mut r: Vec<String> = Vec::new();
    r.push(s.to_owned());
    proof {
        lemma_split_no_sep(s@, sep);
        assert(r@.map_values(|t: String| t@) =~= split_on(s@, sep));
    }
    r
}

/// The four context fields extracted from a well-formed method ARN.
pub struct ArnParts {
    pub region: String,
    pub account_id: String,
    pub api_id: String,
    pub stage: String,
}

/// A method ARN is well formed when it has at least 6 colon segments and the
/// sixth of them has at least 2 slash segments.
pub open spec fn method_arn_well_formed(arn: Seq<char>) -> bool {
    let cs = split_on(arn, ':');
    cs.len() >= 6 && split_on(cs[5], '/').len() >= 2
}

/// Extracts region, account id, api id and stage from a method ARN of the
/// shape `arn:aws:execute-api:{region}:{account_id}:{api_id}/{stage}/...`:
/// region and account id are colon segments 3 and 4, api id and stage the
/// first two slash segments of colon segment 5. Exactly the malformed ARNs
/// are rejected.
pub fn parse_method_arn(arn: &str) -> (r: Result<ArnParts, ArnError>)
    ensures
        method_arn_well_formed(arn@) ==> ({
            let cs = split_on(arn@, ':');
            let ss = split_on(cs[5], '/');
            &&& r is Ok
            &&& r->Ok_0.region@ == cs[3]
            &&& r->Ok_0.account_id@ == cs[4]
            &&& r->Ok_0.api_id@ == ss[0]
            &&& r->Ok_0.stage@ == ss[1]
        }),
        !method_arn_well_formed(arn@) ==> r == Result::<ArnParts, ArnError>::Err(
            ArnError::MalformedArn,
        ),
{
    let cols = split_str(arn, ':');
    if cols.len() < 6 {
        return Err(ArnError::MalformedArn);
    }
    proof {
        assert(cols@[5]@ == split_on(arn@, ':')[5]);
    }
    let slashes = split_str(cols[5].as_str(), '/');
    if slashes.len() < 2 {
        return Err(ArnError::MalformedArn);
    }
    Ok(
        ArnParts {
            region: cols[3].clone(),
            account_id: cols[4].clone(),
            api_id: slashes[0].clone(),
            stage: slashes[1].clone(),
        },
    )
}

} // verus!
