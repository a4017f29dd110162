//! Tables of the versions of a service that are supported.

use crate::text::{concat2, concat3, decimal, digit_char, u64_to_string};
use crate::text_map::TextMap;
use vstd::prelude::*;

verus! {

/// `a.b`
pub open spec fn dotted2(a: nat, b: nat) -> Seq<char> {
    decimal(a) + "."@ + decimal(b)
}

/// `a.b.c`
pub open spec fn dotted3(a: nat, b: nat, c: nat) -> Seq<char> {
    decimal(a) + "."@ + decimal(b) + "."@ + decimal(c)
}

/// Whether `key` is `major.m` for a minor version `m` from `lo` to `hi`.
pub open spec fn is_minor_key(key: Seq<char>, major: nat, lo: nat, hi: int) -> bool {
    exists|m: nat| lo <= m <= hi && key == #[trigger] dotted2(major, m)
}

/// Whether `key` is `major.minor.u` for an update `u` from `lo` to `hi`.
pub open spec fn is_update_key_of(key: Seq<char>, major: nat, minor: nat, lo: nat, hi: int) -> bool {
    exists|u: nat| lo <= u <= hi && key == #[trigger] dotted3(major, minor, u)
}

/// Whether `key` is `major.m.u` for a minor version `m` from `lo` to `hi`
/// and an update `u` from `update_min` to `update_max`.
pub open spec fn is_update_key(
    key: Seq<char>,
    major: nat,
    lo: nat,
    hi: int,
    update_min: nat,
    update_max: nat,
) -> bool {
    exists|m: nat|
        lo <= m <= hi && #[trigger] is_update_key_of(key, major, m, update_min, update_max as int)
}

/// The version that a key of a table without updates stands for: the
/// major version alone for its latest minor version, every other key for
/// itself.
pub open spec fn plain_target(key: Seq<char>, major: nat, minor_max: nat, suffix: Seq<char>) -> Seq<
    char,
> {
    if key == decimal(major) {
        dotted2(major, minor_max) + suffix
    } else {
        key + suffix
    }
}

/// The version that a key of a table with updates stands for: the major
/// version alone for the latest of all, a minor version for its latest
/// update, and an update for itself. The suffix goes with the updates and
/// with the latest version; it goes with the latest update of a minor
/// version only where the table has a single minor version.
pub open spec fn update_target(
    key: Seq<char>,
    major: nat,
    minor_min: nat,
    minor_max: nat,
    update_max: nat,
    suffix: Seq<char>,
) -> Seq<char> {
    if key == decimal(major) {
        dotted3(major, minor_max, update_max) + suffix
    } else if is_minor_key(key, major, minor_min, minor_max as int) {
        if minor_min == minor_max {
            key + "."@ + decimal(update_max) + suffix
        } else {
            key + "."@ + decimal(update_max)
        }
    } else {
        key + suffix
    }
}

/// The versions of one major version that are supported. The table lists
/// the major version alone, each minor version from `minor_min` to
/// `minor_max`, and, where updates are given, each update from `update.0`
/// to `update.1` of each of these minor versions.
pub open spec fn supported_versions(
    major: nat,
    minor_min: nat,
    minor_max: nat,
    update: Option<(nat, nat)>,
    suffix: Seq<char>,
) -> Map<Seq<char>, Seq<char>> {
    match update {
        None => Map::new(
            |key: Seq<char>|
                key == decimal(major) || is_minor_key(key, major, minor_min, minor_max as int),
            |key: Seq<char>| plain_target(key, major, minor_max, suffix),
        ),
        Some((update_min, update_max)) => Map::new(
            |key: Seq<char>|
                key == decimal(major) || is_minor_key(key, major, minor_min, minor_max as int)
                    || is_update_key(
                    key,
                    major,
                    minor_min,
                    minor_max as int,
                    update_min,
                    update_max,
                ),
            |key: Seq<char>| update_target(key, major, minor_min, minor_max, update_max, suffix),
        ),
    }
}

/// The decimal notation of a number holds no dot.
pub proof fn lemma_decimal_has_no_dot(n: nat)
    ensures
        decimal(n).len() > 0,
        forall|i: int| 0 <= i < decimal(n).len() ==> decimal(n)[i] != '.',
    decreases n,
{
    if n >= 10 {
        lemma_decimal_has_no_dot(n / 10);
        assert(digit_char(n % 10) != '.');
    } else {
        assert(digit_char(n) != '.');
    }
}

/// A text that goes on behind a dot is no decimal notation.
pub proof fn lemma_dot_ends_decimal(head: Seq<char>, tail: Seq<char>, n: nat)
    ensures
        head + "."@ + tail != decimal(n),
{
    reveal_strlit(".");
    lemma_decimal_has_no_dot(n);
    let whole = head + "."@ + tail;
    assert(whole[head.len() as int] == '.');
}

/// `a.b.c` is none of `a`, `a.m`; and `a.b` is not `a`.
pub proof fn lemma_keys_differ(a: nat, b: nat, c: nat, m: nat)
    ensures
        dotted2(a, b) != decimal(a),
        dotted3(a, b, c) != decimal(a),
        dotted3(a, b, c) != dotted2(a, m),
{
    reveal_strlit(".");
    lemma_decimal_has_no_dot(a);
    lemma_decimal_has_no_dot(b);
    lemma_decimal_has_no_dot(c);
    lemma_decimal_has_no_dot(m);
    let p = decimal(a) + "."@;
    assert(dotted2(a, b).len() > decimal(a).len());
    assert(dotted3(a, b, c).len() > decimal(a).len());
    let long = dotted3(a, b, c);
    let short = dotted2(a, m);
    let at = p.len() + decimal(b).len();
    assert(long[at as int] == '.');
    if long == short {
        assert(short[at as int] == decimal(m)[at - p.len()]);
    }
}

/// In a table without updates every minor version in the range stands
/// for itself with the suffix, and the major version alone stands for the
/// latest minor version.
pub proof fn law_minor_versions_are_listed(
    major: nat,
    minor_min: nat,
    minor_max: nat,
    suffix: Seq<char>,
    minor: nat,
)
    requires
        minor_min <= minor <= minor_max,
    ensures
        ({
            let table = supported_versions(major, minor_min, minor_max, None, suffix);
            &&& table.dom().contains(dotted2(major, minor))
            &&& table[dotted2(major, minor)] == dotted2(major, minor) + suffix
            &&& table.dom().contains(decimal(major))
            &&& table[decimal(major)] == dotted2(major, minor_max) + suffix
        }),
{
    lemma_keys_differ(major, minor, 0, 0);
    assert(is_minor_key(dotted2(major, minor), major, minor_min, minor_max as int));
}

/// In a table with updates every update in the range of every minor
/// version in the range stands for itself with the suffix, every such
/// minor version for its latest update, and the major version alone for
/// the latest update of the latest minor version.
pub proof fn law_updates_are_listed(
    major: nat,
    minor_min: nat,
    minor_max: nat,
    update_min: nat,
    update_max: nat,
    suffix: Seq<char>,
    minor: nat,
    update: nat,
)
    requires
        minor_min <= minor <= minor_max,
        update_min <= update <= update_max,
    ensures
        ({
            let table = supported_versions(
                major,
                minor_min,
                minor_max,
                Some((update_min, update_max)),
                suffix,
            );
            &&& table.dom().contains(dotted3(major, minor, update))
            &&& table[dotted3(major, minor, update)] == dotted3(major, minor, update) + suffix
            &&& table.dom().contains(dotted2(major, minor))
            &&& table[dotted2(major, minor)] == if minor_min == minor_max {
                dotted3(major, minor, update_max) + suffix
            } else {
                dotted3(major, minor, update_max)
            }
            &&& table.dom().contains(decimal(major))
            &&& table[decimal(major)] == dotted3(major, minor_max, update_max) + suffix
        }),
{
    let key = dotted3(major, minor, update);
    assert(is_update_key_of(key, major, minor, update_min, update_max as int));
    assert(is_update_key(key, major, minor_min, minor_max as int, update_min, update_max));
    assert forall|w: nat| key != #[trigger] dotted2(major, w) by {
        lemma_keys_differ(major, minor, update, w);
    }
    lemma_keys_differ(major, minor, update, 0);
    assert(is_minor_key(dotted2(major, minor), major, minor_min, minor_max as int));
    assert(dotted3(major, minor, update_max) =~= dotted2(major, minor) + "."@ + decimal(update_max));
    assert(dotted3(major, minor, update_max) + suffix =~= dotted2(major, minor) + "."@ + decimal(
        update_max,
    ) + suffix);
}

fn dot2(a: u32, b: u32) -> (r: String)
    ensures
        r@ == dotted2(a as nat, b as nat),
{
    let x = u64_to_string(a as u64);
    let y = u64_to_string(b as u64);
    concat3(x.as_str(), ".", y.as_str())
}

fn dot3(a: u32, b: u32, c: u32) -> (r: String)
    ensures
        r@ == dotted3(a as nat, b as nat, c as nat),
{
    let mut r = dot2(a, b);
    let z = u64_to_string(c as u64);
    r.append(".");
    r.append(z.as_str());
    r
}

/// The minor versions up to `hi` of a table without updates.
spec fn plain_part(major: nat, lo: nat, hi: int, suffix: Seq<char>) -> Map<Seq<char>, Seq<char>> {
    Map::new(|key: Seq<char>| is_minor_key(key, major, lo, hi), |key: Seq<char>| key + suffix)
}

/// The updates up to `hi` of one minor version.
spec fn updates_part(major: nat, minor: nat, lo: nat, hi: int, suffix: Seq<char>) -> Map<
    Seq<char>,
    Seq<char>,
> {
    Map::new(
        |key: Seq<char>| is_update_key_of(key, major, minor, lo, hi),
        |key: Seq<char>| key + suffix,
    )
}

/// The minor versions up to `hi` of a table with updates, with their
/// updates.
spec fn update_part(
    major: nat,
    minor_min: nat,
    minor_max: nat,
    hi: int,
    update_min: nat,
    update_max: nat,
    suffix: Seq<char>,
) -> Map<Seq<char>, Seq<char>> {
    Map::new(
        |key: Seq<char>|
            is_minor_key(key, major, minor_min, hi) || is_update_key(
                key,
                major,
                minor_min,
                hi,
                update_min,
                update_max,
            ),
        |key: Seq<char>|
            if is_minor_key(key, major, minor_min, hi) {
                if minor_min == minor_max {
                    key + "."@ + decimal(update_max) + suffix
                } else {
                    key + "."@ + decimal(update_max)
                }
            } else {
                key + suffix
            },
    )
}

fn add_updates(table: &mut TextMap, major: u32, minor: u32, lo: u32, hi: u32, suffix: &str)
    ensures
        final(table)@ == old(table)@.union_prefer_right(
            updates_part(major as nat, minor as nat, lo as nat, hi as int, suffix@),
        ),
{
    assert(table@ =~= old(table)@.union_prefer_right(
        updates_part(major as nat, minor as nat, lo as nat, lo - 1, suffix@),
    ));
    if hi < lo {
        assert(updates_part(major as nat, minor as nat, lo as nat, hi as int, suffix@)
            =~= updates_part(major as nat, minor as nat, lo as nat, lo - 1, suffix@));
        return ;
    }
    let mut u: u32 = lo;
    loop
        invariant_except_break
            table@ == old(table)@.union_prefer_right(
                updates_part(major as nat, minor as nat, lo as nat, u - 1, suffix@),
            ),
        invariant
            lo <= u <= hi,
        ensures
            table@ == old(table)@.union_prefer_right(
                updates_part(major as nat, minor as nat, lo as nat, hi as int, suffix@),
            ),
        decreases hi - u,
    {
        let version = dot3(major, minor, u);
        let value = concat2(version.as_str(), suffix);
        table.insert(version, value);
        proof {
            let before = updates_part(major as nat, minor as nat, lo as nat, u - 1, suffix@);
            let after = updates_part(major as nat, minor as nat, lo as nat, u as int, suffix@);
            let key = dotted3(major as nat, minor as nat, u as nat);
            assert(is_update_key_of(key, major as nat, minor as nat, lo as nat, u as int));
            assert(before.insert(key, key + suffix@) =~= after);
            assert(table@ =~= old(table)@.union_prefer_right(after));
        }
        if u == hi {
            break ;
        }
        u = u + 1;
    }
}

/// The table of the supported versions of one major version.
pub fn generate_supported_version(
    major: u32,
    minor_min: u32,
    minor_max: u32,
    update: Option<(u32, u32)>,
    suffix_version: Option<String>,
) -> (r: TextMap)
    ensures
        r@ == supported_versions(
            major as nat,
            minor_min as nat,
            minor_max as nat,
            match update {
                Some((lo, hi)) => Some((lo as nat, hi as nat)),
                None => None,
            },
            match suffix_version {
                Some(s) => s@,
                None => Seq::empty(),
            },
        ),
{
    let suffix = match suffix_version {
        Some(s) => s,
        None => String::new(),
    };
    let ghost mj = major as nat;
    let ghost lo = minor_min as nat;
    let ghost hi = minor_max as nat;
    let mut table = TextMap::new();
    match update {
        Some((update_min, update_max)) => {
            let ghost ulo = update_min as nat;
            let ghost uhi = update_max as nat;
            let top = dot3(major, minor_max, update_max);
            let latest = concat2(top.as_str(), suffix.as_str());
            assert(table@ =~= update_part(mj, lo, hi, lo - 1, ulo, uhi, suffix@));
            if minor_min <= minor_max {
                let mut minor: u32 = minor_min;
                loop
                    invariant_except_break
                        table@ == update_part(mj, lo, hi, minor - 1, ulo, uhi, suffix@),
                    invariant
                        minor_min <= minor <= minor_max,
                        mj == major,
                        lo == minor_min,
                        hi == minor_max,
                        ulo == update_min,
                        uhi == update_max,
                        latest@ == dotted3(mj, hi, uhi) + suffix@,
                    ensures
                        table@ == update_part(mj, lo, hi, hi as int, ulo, uhi, suffix@),
                    decreases minor_max - minor,
                {
                    let ghost before = table@;
                    let short = dot2(major, minor);
                    let ghost key = short@;
                    if minor_min == minor_max {
                        table.insert(short, latest.clone());
                    } else {
                        table.insert(short, dot3(major, minor, update_max));
                    }
                    let ghost with_short = table@;
                    add_updates(&mut table, major, minor, update_min, update_max, suffix.as_str());
                    proof {
                        let m = minor as nat;
                        let part = updates_part(mj, m, ulo, uhi as int, suffix@);
                        let after = update_part(mj, lo, hi, minor as int, ulo, uhi, suffix@);
                        assert(key == dotted2(mj, m));
                        assert(is_minor_key(key, mj, lo, minor as int));
                        assert forall|k: Seq<char>| #[trigger]
                            after.dom().contains(k) <==> table@.dom().contains(k) by {
                            if is_update_key_of(k, mj, m, ulo, uhi as int) {
                                assert(is_update_key(k, mj, lo, minor as int, ulo, uhi));
                            }
                            if is_update_key(k, mj, lo, minor as int, ulo, uhi) {
                                let w = choose|w: nat|
                                    lo <= w <= minor && #[trigger] is_update_key_of(
                                        k,
                                        mj,
                                        w,
                                        ulo,
                                        uhi as int,
                                    );
                                if w < minor {
                                    assert(is_update_key(k, mj, lo, minor - 1, ulo, uhi));
                                }
                            }
                            if is_update_key(k, mj, lo, minor - 1, ulo, uhi) {
                                let w = choose|w: nat|
                                    lo <= w <= minor - 1 && #[trigger] is_update_key_of(
                                        k,
                                        mj,
                                        w,
                                        ulo,
                                        uhi as int,
                                    );
                                assert(is_update_key(k, mj, lo, minor as int, ulo, uhi));
                            }
                            if is_minor_key(k, mj, lo, minor as int) {
                                let w = choose|w: nat| lo <= w <= minor && k == #[trigger] dotted2(mj, w);
                                if w < minor {
                                    assert(is_minor_key(k, mj, lo, minor - 1));
                                }
                            }
                        }
                        assert forall|k: Seq<char>| #[trigger] after.dom().contains(k) implies after[k]
                            == table@[k] by {
                            if is_update_key_of(k, mj, m, ulo, uhi as int) {
                                let u = choose|u: nat| ulo <= u <= uhi && k == #[trigger] dotted3(mj, m, u);
                                assert forall|w: nat| k != #[trigger] dotted2(mj, w) by {
                                    lemma_keys_differ(mj, m, u, w);
                                }
                                assert(!is_minor_key(k, mj, lo, minor as int));
                            } else if k == key {
                                assert(dotted3(mj, m, uhi) =~= key + "."@ + decimal(uhi));
                                assert(dotted3(mj, hi, uhi) + suffix@ =~= dotted2(mj, hi) + "."@
                                    + decimal(uhi) + suffix@);
                            } else {
                                assert(table@[k] == before[k]);
                                if is_minor_key(k, mj, lo, minor as int) {
                                    let w = choose|w: nat|
                                        lo <= w <= minor && k == #[trigger] dotted2(mj, w);
                                    assert(is_minor_key(k, mj, lo, minor - 1));
                                } else {
                                    let w = choose|w: nat|
                                        lo <= w <= minor && #[trigger] is_update_key_of(
                                            k,
                                            mj,
                                            w,
                                            ulo,
                                            uhi as int,
                                        );
                                    assert(w < minor);
                                    assert(is_update_key(k, mj, lo, minor - 1, ulo, uhi));
                                    assert(!is_minor_key(k, mj, lo, minor - 1)) by {
                                        if is_minor_key(k, mj, lo, minor - 1) {
                                            let x = choose|x: nat|
                                                lo <= x <= minor - 1 && k == #[trigger] dotted2(mj, x);
                                            assert(is_minor_key(k, mj, lo, minor as int));
                                        }
                                    }
                                }
                            }
                        }
                        assert forall|k: Seq<char>| #[trigger]
                            table@.dom().contains(k) implies after.dom().contains(k) by {
                            assert(after.dom().contains(k) <==> table@.dom().contains(k));
                        }
                        assert(table@.dom() =~= after.dom());
                        assert(table@ =~= after);
                    }
                    if minor == minor_max {
                        break ;
                    }
                    minor = minor + 1;
                }
            } else {
                assert(update_part(mj, lo, hi, lo - 1, ulo, uhi, suffix@) =~= update_part(
                    mj,
                    lo,
                    hi,
                    hi as int,
                    ulo,
                    uhi,
                    suffix@,
                ));
            }
            table.insert(u64_to_string(major as u64), latest);
            proof {
                let whole = supported_versions(mj, lo, hi, Some((ulo, uhi)), suffix@);
                assert forall|k: Seq<char>| #[trigger] whole.dom().contains(k) implies whole[k]
                    == table@[k] by {
                    if k != decimal(mj) {
                    } else {
                        assert forall|w: nat| k != #[trigger] dotted2(mj, w) by {
                            lemma_keys_differ(mj, w, 0, 0);
                        }
                    }
                }
                assert(table@ =~= whole);
            }
        },
        None => {
            let top = dot2(major, minor_max);
            let latest = concat2(top.as_str(), suffix.as_str());
            assert(table@ =~= plain_part(mj, lo, lo - 1, suffix@));
            if minor_min <= minor_max {
                let mut minor: u32 = minor_min;
                loop
                    invariant_except_break
                        table@ == plain_part(mj, lo, minor - 1, suffix@),
                    invariant
                        minor_min <= minor <= minor_max,
                        mj == major,
                        lo == minor_min,
                    ensures
                        table@ == plain_part(mj, lo, minor_max as int, suffix@),
                    decreases minor_max - minor,
                {
                    let version = dot2(major, minor);
                    let value = concat2(version.as_str(), suffix.as_str());
                    table.insert(version, value);
                    proof {
                        let key = dotted2(mj, minor as nat);
                        assert(is_minor_key(key, mj, lo, minor as int));
                        assert(plain_part(mj, lo, minor - 1, suffix@).insert(key, key + suffix@)
                            =~= plain_part(mj, lo, minor as int, suffix@));
                    }
                    if minor == minor_max {
                        break ;
                    }
                    minor = minor + 1;
                }
            } else {
                assert(plain_part(mj, lo, lo - 1, suffix@) =~= plain_part(mj, lo, hi as int, suffix@));
            }
            table.insert(u64_to_string(major as u64), latest);
            assert(table@ =~= supported_versions(mj, lo, hi, None, suffix@));
        },
    }
    table
}

} // verus!
