use vstd::prelude::*;
use crate::config::{spec_str_bytes, bytes_eq};

verus! {

/// Decimal digit of a value below ten.
pub open spec fn spec_digit(n: u64) -> char
    recommends
        n < 10,
{
    ((48 + n) as u8) as char
}

/// The decimal digits of a value, most significant first, no leading zeros.
pub open spec fn spec_u64_digits(n: u64) -> Seq<char>
    decreases n,
{
    if n < 10 {
        seq![spec_digit(n)]
    } else {
        spec_u64_digits(n / 10) + seq![spec_digit(n % 10)]
    }
}

/// The name of the file a flush produces: a UTC stamp and the engine's
/// monotone counter. Sorting names lexicographically yields creation order.
pub open spec fn spec_file_name(stamp: Seq<char>, counter: u64) -> Seq<char> {
    "logs_"@ + stamp + "_"@ + spec_u64_digits(counter) + ".parquet"@
}

/// Relies on std's `format!`: plain concatenation of two strings.
#[verifier::external_body]
pub(crate) fn concat_strs(a: &str, b: &str) -> (r: String)
    ensures
        r@ == a@ + b@,
{
    format!("{}{}", a, b)
}

/// Relies on std's `Display` for `u64`: its decimal digits, most significant
/// first, no sign and no leading zeros.
#[verifier::external_body]
pub(crate) fn u64_string(n: u64) -> (r: String)
    ensures
        r@ == spec_u64_digits(n),
{
    n.to_string()
}

/// Relies on chrono's `Utc::now` and `format`: the current UTC time as
/// "YYYYMMDD_HHMMSS_mmm". The result depends on the clock, so nothing is
/// claimed of it.
#[verifier::external_body]
pub(crate) fn now_stamp() -> (r: String)
{
    chrono::Utc::now().format("%Y%m%d_%H%M%S_%3f").to_string()
}

/// Build the name of the next file.
pub(crate) fn file_name(stamp: &str, counter: u64) -> (r: String)
    ensures
        r@ == spec_file_name(stamp@, counter),
{
    let a = concat_strs("logs_", stamp);
    let b = concat_strs(a.as_str(), "_");
    let d = u64_string(counter);
    let c = concat_strs(b.as_str(), d.as_str());
    concat_strs(c.as_str(), ".parquet")
}

/// Lexicographic order on UTF-8 bytes: `a` is a prefix of `b`, or the two
/// agree up to a first position where `a` holds the smaller byte.
pub open spec fn spec_bytes_leq(a: Seq<u8>, b: Seq<u8>) -> bool {
    ||| (a.len() <= b.len() && a == b.take(a.len() as int))
    ||| (exists|i: int|
        0 <= i < a.len() && i < b.len() && a.take(i) == b.take(i) && a[i] < #[trigger] b[i])
}

/// The lexicographic order relates every two byte strings one way or the
/// other.
pub proof fn lemma_bytes_leq_total(a: Seq<u8>, b: Seq<u8>)
    ensures
        spec_bytes_leq(a, b) || spec_bytes_leq(b, a),
{
    assert(a.take(0) =~= b.take(0));
    lemma_bytes_leq_total_from(a, b, 0);
}

proof fn lemma_bytes_leq_total_from(a: Seq<u8>, b: Seq<u8>, k: int)
    requires
        0 <= k <= a.len(),
        k <= b.len(),
        a.take(k) == b.take(k),
    ensures
        spec_bytes_leq(a, b) || spec_bytes_leq(b, a),
    decreases a.len() - k,
{
    if k == a.len() {
        assert(a =~= b.take(a.len() as int));
    } else if k == b.len() {
        assert(b =~= a.take(b.len() as int));
    } else if a[k] == b[k] {
        assert(a.take(k + 1) =~= b.take(k + 1));
        lemma_bytes_leq_total_from(a, b, k + 1);
    } else if a[k] < b[k] {
        assert(spec_bytes_leq(a, b));
    } else {
        assert(b.take(k) =~= a.take(k));
        assert(spec_bytes_leq(b, a));
    }
}

/// Compare two names in lexicographic byte order.
fn lex_leq(a: &str, b: &str) -> (r: bool)
    ensures
        r == spec_bytes_leq(spec_str_bytes(a@), spec_str_bytes(b@)),
{
    let ab = a.as_bytes();
    let bb = b.as_bytes();
    let ghost av = spec_str_bytes(a@);
    let ghost bv = spec_str_bytes(b@);
    let n = if ab.len() <= bb.len() {
        ab.len()
    } else {
        bb.len()
    };
    let mut i: usize = 0;
    while i < n
        invariant
            av == spec_str_bytes(a@),
            bv == spec_str_bytes(b@),
            ab@ == av,
            bb@ == bv,
            n <= av.len(),
            n <= bv.len(),
            (n == av.len() || n == bv.len()),
            i <= n,
            forall|j: int| 0 <= j < i ==> av[j] == bv[j],
        decreases n - i,
    {
        if ab[i] < bb[i] {
            proof {
                assert(av.take(i as int) =~= bv.take(i as int));
                assert(av[i as int] < bv[i as int]);
                assert(spec_bytes_leq(av, bv));
            }
            return true;
        }
        if ab[i] > bb[i] {
            proof {
                assert forall|j: int|
                    !(0 <= j < av.len() && j < bv.len() && av.take(j) == bv.take(j) && av[j]
                        < #[trigger] bv[j]) by {
                    if 0 <= j < av.len() && j < bv.len() && av.take(j) == bv.take(j) {
                        if j < i {
                            assert(av[j] == bv[j]);
                        } else if j > i {
                            assert(av.take(j)[i as int] == bv.take(j)[i as int]);
                        }
                    }
                }
                assert(!(av.len() <= bv.len() && av == bv.take(av.len() as int))) by {
                    if av.len() <= bv.len() && av == bv.take(av.len() as int) {
                        assert(av[i as int] == bv.take(av.len() as int)[i as int]);
                    }
                }
                assert(!spec_bytes_leq(av, bv));
            }
            return false;
        }
        i += 1;
    }
    if ab.len() <= bb.len() {
        proof {
            assert(av =~= bv.take(av.len() as int));
            assert(spec_bytes_leq(av, bv));
        }
        true
    } else {
        proof {
            assert forall|j: int|
                !(0 <= j < av.len() && j < bv.len() && av.take(j) == bv.take(j) && av[j]
                    < #[trigger] bv[j]) by {
                if 0 <= j < av.len() && j < bv.len() {
                    assert(av[j] == bv[j]);
                }
            }
            assert(!(av.len() <= bv.len()));
            assert(!spec_bytes_leq(av, bv));
        }
        false
    }
}

/// Whether a name carries the columnar files\' extension, on its UTF-8 bytes.
pub open spec fn spec_is_parquet_name(s: Seq<char>) -> bool {
    let b = spec_str_bytes(s);
    b.len() >= 8 && b.subrange(b.len() - 8, b.len() as int) == spec_parquet_ext_bytes()
}

/// The bytes of ".parquet".
pub open spec fn spec_parquet_ext_bytes() -> Seq<u8> {
    seq![46u8, 112u8, 97u8, 114u8, 113u8, 117u8, 101u8, 116u8]
}

/// Whether one name carries the columnar files\' extension.
fn is_parquet_name(s: &str) -> (r: bool)
    ensures
        r == spec_is_parquet_name(s@),
{
    let b = s.as_bytes();
    if b.len() < 8 {
        return false;
    }
    let ext: Vec<u8> = vec![46u8, 112u8, 97u8, 114u8, 113u8, 117u8, 101u8, 116u8];
    let tail = &b[b.len() - 8..b.len()];
    let r = crate::config::bytes_eq(tail, ext.as_slice());
    proof {
        assert(tail@ =~= spec_str_bytes(s@).subrange(
            spec_str_bytes(s@).len() - 8,
            spec_str_bytes(s@).len() as int,
        ));
    }
    r
}

/// The views of a vector of names.
pub open spec fn spec_name_views(names: Seq<String>) -> Seq<Seq<char>> {
    names.map_values(|s: String| s@)
}

/// The names that carry the columnar files\' extension, in order.
pub open spec fn spec_parquet_names(names: Seq<Seq<char>>) -> Seq<Seq<char>>
    decreases names.len(),
{
    if names.len() == 0 {
        Seq::empty()
    } else if spec_is_parquet_name(names.last()) {
        spec_parquet_names(names.drop_last()).push(names.last())
    } else {
        spec_parquet_names(names.drop_last())
    }
}

/// Adjacent names stand in lexicographic byte order.
pub open spec fn spec_sorted_names(names: Seq<Seq<char>>) -> bool {
    forall|i: int|
        0 <= i < names.len() - 1 ==> spec_bytes_leq(
            spec_str_bytes(#[trigger] names[i]),
            spec_str_bytes(names[i + 1]),
        )
}

/// Inserting one name into a sequence adds exactly that name to its multiset.
proof fn lemma_insert_to_multiset(s: Seq<Seq<char>>, j: int, x: Seq<char>)
    requires
        0 <= j <= s.len(),
    ensures
        s.insert(j, x).to_multiset() =~= s.to_multiset().insert(x),
{
    broadcast use vstd::seq_lib::group_to_multiset_ensures;
    broadcast use vstd::multiset::group_multiset_axioms;

    let t = s.insert(j, x);
    assert(t.remove(j) =~= s);
    assert(t.remove(j).to_multiset() =~= t.to_multiset().remove(t[j]));
    assert(t[j] == x);
    assert(t.contains(x)) by {
        assert(t[j] == x);
    }
    assert(t.to_multiset().count(x) > 0);
    assert forall|y: Seq<char>| t.to_multiset().count(y) == s.to_multiset().insert(x).count(y) by {
        assert(t.to_multiset().remove(x).count(y) == s.to_multiset().count(y));
    }
}

/// No names, no multiset.
proof fn lemma_empty_names_multiset(s: Seq<Seq<char>>)
    requires
        s.len() == 0,
    ensures
        s.to_multiset() =~= vstd::multiset::Multiset::empty(),
{
    broadcast use vstd::seq_lib::group_to_multiset_ensures;

    assert forall|x: Seq<char>| s.to_multiset().count(x) == 0 by {
        if s.to_multiset().count(x) > 0 {
            assert(s.contains(x));
        }
    }
}

/// The position a name takes in a sorted run: past every name that is not
/// above it.
fn insert_position(sorted: &Vec<String>, x: &str) -> (j: usize)
    ensures
        j <= sorted@.len(),
        forall|t: int|
            0 <= t < j ==> spec_bytes_leq(
                spec_str_bytes(#[trigger] sorted@[t]@),
                spec_str_bytes(x@),
            ),
        j < sorted@.len() ==> !spec_bytes_leq(
            spec_str_bytes(sorted@[j as int]@),
            spec_str_bytes(x@),
        ),
{
    let mut j: usize = 0;
    while j < sorted.len()
        invariant
            j <= sorted@.len(),
            forall|t: int|
                0 <= t < j ==> spec_bytes_leq(
                    spec_str_bytes(#[trigger] sorted@[t]@),
                    spec_str_bytes(x@),
                ),
        decreases sorted@.len() - j,
    {
        if !lex_leq(sorted[j].as_str(), x) {
            return j;
        }
        j += 1;
    }
    j
}

/// Keep the names of columnar files and lay them out in lexicographic order.
/// The names encode a UTC stamp, so the order is creation order.
pub fn sort_parquet_names(names: Vec<String>) -> (r: Vec<String>)
    ensures
        spec_sorted_names(spec_name_views(r@)),
        spec_name_views(r@).to_multiset() == spec_parquet_names(
            spec_name_views(names@),
        ).to_multiset(),
{
    broadcast use vstd::seq_lib::group_to_multiset_ensures;

    let mut kept: Vec<String> = Vec::new();
    let n = names.len();
    let mut it: usize = 0;
    proof {
        assert(spec_name_views(names@.take(0)) =~= Seq::<Seq<char>>::empty());
        assert(spec_name_views(kept@) =~= spec_parquet_names(spec_name_views(names@.take(0))));
    }
    while it < n
        invariant
            it <= n,
            n == names@.len(),
            spec_name_views(kept@) =~= spec_parquet_names(spec_name_views(names@.take(it as int))),
        decreases n - it,
    {
        let ghost pre = kept@;
        let name = names[it].clone();
        let keep = is_parquet_name(name.as_str());
        if keep {
            kept.push(name);
        }
        proof {
            let views = spec_name_views(names@.take(it as int + 1));
            assert(views.drop_last() =~= spec_name_views(names@.take(it as int)));
            assert(views.last() == names@[it as int]@);
            if keep {
                assert(spec_name_views(kept@) =~= spec_name_views(pre).push(names@[it as int]@));
            } else {
                assert(spec_name_views(kept@) =~= spec_name_views(pre));
            }
            assert(spec_name_views(kept@) =~= spec_parquet_names(views));
        }
        it += 1;
    }
    proof {
        assert(names@.take(n as int) =~= names@);
    }
    let mut sorted: Vec<String> = Vec::new();
    let k = kept.len();
    let mut s: usize = 0;
    proof {
        lemma_empty_names_multiset(spec_name_views(sorted@));
        assert(spec_name_views(kept@.take(0)) =~= Seq::<Seq<char>>::empty());
        lemma_empty_names_multiset(spec_name_views(kept@.take(0)));
    }
    while s < k
        invariant
            s <= k,
            k == kept@.len(),
            spec_name_views(kept@) =~= spec_parquet_names(spec_name_views(names@)),
            spec_sorted_names(spec_name_views(sorted@)),
            spec_name_views(sorted@).to_multiset() =~= spec_name_views(
                kept@.take(s as int),
            ).to_multiset(),
        decreases k - s,
    {
        let x = kept[s].clone();
        let j = insert_position(&sorted, x.as_str());
        let ghost pre_sorted = sorted@;
        let ghost pos = j as int;
        proof {
            if pos < pre_sorted.len() {
                lemma_bytes_leq_total(spec_str_bytes(pre_sorted[pos]@), spec_str_bytes(x@));
            }
        }
        sorted.insert(j, x);
        proof {
            broadcast use vstd::seq_lib::group_to_multiset_ensures;

            assert(spec_name_views(sorted@) =~= spec_name_views(pre_sorted).insert(pos, x@));
            lemma_insert_to_multiset(spec_name_views(pre_sorted), pos, x@);
            assert(kept@.take(s as int + 1).drop_last() =~= kept@.take(s as int));
            assert(spec_name_views(kept@.take(s as int + 1)) =~= spec_name_views(
                kept@.take(s as int),
            ).push(kept@[s as int]@));
            assert(spec_name_views(kept@.take(s as int)).push(
                kept@[s as int]@,
            ).to_multiset() =~= spec_name_views(kept@.take(s as int)).to_multiset().insert(
                kept@[s as int]@,
            ));
            assert(spec_name_views(kept@.take(s as int + 1)).to_multiset() =~= spec_name_views(
                kept@.take(s as int),
            ).to_multiset().insert(kept@[s as int]@));
            assert(spec_name_views(sorted@).to_multiset() =~= spec_name_views(
                kept@.take(s as int + 1),
            ).to_multiset());
            let sv = spec_name_views(sorted@);
            let pv = spec_name_views(pre_sorted);
            assert forall|t: int|
                0 <= t < sv.len() - 1 implies spec_bytes_leq(
                spec_str_bytes(#[trigger] sv[t]),
                spec_str_bytes(sv[t + 1]),
            ) by {
                if t + 1 < pos {
                    assert(sv[t] == pv[t] && sv[t + 1] == pv[t + 1]);
                } else if t + 1 == pos {
                    assert(sv[t] == pv[t] && sv[t + 1] == x@);
                } else if t == pos {
                    assert(sv[t] == x@ && sv[t + 1] == pv[t]);
                } else {
                    assert(sv[t] == pv[t - 1] && sv[t + 1] == pv[t]);
                }
            }
        }
        s += 1;
    }
    proof {
        assert(kept@.take(k as int) =~= kept@);
    }
    sorted
}

} // verus!
