//! Parsing the attach tool's text output, and selecting entries by
//! extension.
//!
//! The attach operation prints human-readable text whose last non-empty
//! line ends with the mounted volume's path, set off by a run of at least
//! two spaces. [`parse_volume_path`] implements that documented contract:
//! take the last non-empty line, take what follows the last double-space,
//! and trim surrounding whitespace; an empty remainder means the output
//! carries no volume path.

use vstd::prelude::*;

verus! {

/// The byte value of a line feed.
pub const NL: u8 = 10;
/// The byte value of a space.
pub const SP: u8 = 32;

/// Whitespace bytes trimmed around a parsed token.
pub open spec fn is_space_byte(x: u8) -> bool {
    x == 32 || x == 9 || x == 13 || x == 10
}

fn is_space(x: u8) -> (r: bool)
    ensures
        r == is_space_byte(x),
{
    x == 32 || x == 9 || x == 13 || x == 10
}

/// `s` with every trailing `d` byte removed.
pub open spec fn strip_trailing(s: Seq<u8>, d: u8) -> Seq<u8>
    decreases s.len(),
{
    if s.len() > 0 && s.last() == d {
        strip_trailing(s.drop_last(), d)
    } else {
        s
    }
}

/// The maximal suffix of `s` that contains no `d` byte.
pub open spec fn suffix_after(s: Seq<u8>, d: u8) -> Seq<u8>
    decreases s.len(),
{
    if s.len() == 0 {
        s
    } else if s.last() == d {
        Seq::empty()
    } else {
        suffix_after(s.drop_last(), d).push(s.last())
    }
}

/// Where the token after the last double-space in `s[0..i]` starts: the
/// position right after the last pair of adjacent spaces, or 0.
pub open spec fn token_start(s: Seq<u8>, i: int) -> int
    decreases i,
{
    if i < 2 {
        0
    } else if s[i - 2] == SP && s[i - 1] == SP {
        i
    } else {
        token_start(s, i - 1)
    }
}

/// What follows the last double-space of `s` (all of `s` if none).
pub open spec fn last_gap_token(s: Seq<u8>) -> Seq<u8> {
    s.subrange(token_start(s, s.len() as int), s.len() as int)
}

/// `s` with trailing whitespace removed.
pub open spec fn trim_end(s: Seq<u8>) -> Seq<u8>
    decreases s.len(),
{
    if s.len() > 0 && is_space_byte(s.last()) {
        trim_end(s.drop_last())
    } else {
        s
    }
}

/// `s` with leading whitespace removed.
pub open spec fn trim_start(s: Seq<u8>) -> Seq<u8>
    decreases s.len(),
{
    if s.len() > 0 && is_space_byte(s.first()) {
        trim_start(s.drop_first())
    } else {
        s
    }
}

/// `s` with surrounding whitespace removed.
pub open spec fn trim_bytes(s: Seq<u8>) -> Seq<u8> {
    trim_start(trim_end(s))
}

/// The volume path carried by the attach tool's output: on the last
/// non-empty line, the trimmed token after the last double-space. `None`
/// where nothing remains.
pub open spec fn spec_volume_path(out: Seq<u8>) -> Option<Seq<u8>> {
    let line = suffix_after(strip_trailing(out, NL), NL);
    let tok = trim_bytes(last_gap_token(line));
    if tok.len() == 0 {
        None
    } else {
        Some(tok)
    }
}

/// Extract the mounted volume's path from the attach tool's output.
pub fn parse_volume_path(out: &Vec<u8>) -> (r: Option<Vec<u8>>)
    ensures
        match r {
            Some(v) => spec_volume_path(out@) == Some(v@),
            None => spec_volume_path(out@) is None,
        },
{
    let len = out.len();
    proof {
        assert(out@.subrange(0, len as int) =~= out@);
    }

    // Drop trailing newlines; what remains ends with the last non-empty line.
    let mut e: usize = len;
    while e > 0 && out[e - 1] == NL
        invariant
            e <= len,
            len == out@.len(),
            strip_trailing(out@, NL) == strip_trailing(out@.subrange(0, e as int), NL),
        decreases e,
    {
        proof {
            assert(out@.subrange(0, e as int).last() == out@[e as int - 1]);
            assert(out@.subrange(0, e as int).drop_last() =~= out@.subrange(0, e as int - 1));
        }
        e -= 1;
    }
    proof {
        if e > 0 {
            assert(out@.subrange(0, e as int).last() == out@[e as int - 1]);
        }
        assert(strip_trailing(out@, NL) == out@.subrange(0, e as int));
    }

    // Scan back to the start of the last line.
    let mut b: usize = e;
    proof {
        assert(out@.subrange(e as int, e as int) =~= Seq::<u8>::empty());
        assert(suffix_after(out@.subrange(0, e as int), NL) + out@.subrange(e as int, e as int)
            =~= suffix_after(out@.subrange(0, e as int), NL));
    }
    while b > 0 && out[b - 1] != NL
        invariant
            b <= e <= len,
            len == out@.len(),
            suffix_after(out@.subrange(0, e as int), NL)
                == suffix_after(out@.subrange(0, b as int), NL)
                    + out@.subrange(b as int, e as int),
        decreases b,
    {
        proof {
            let sb = out@.subrange(0, b as int);
            assert(sb.last() == out@[b as int - 1]);
            assert(sb.drop_last() =~= out@.subrange(0, b as int - 1));
            assert(suffix_after(out@.subrange(0, b as int - 1), NL).push(out@[b as int - 1])
                + out@.subrange(b as int, e as int)
                =~= suffix_after(out@.subrange(0, b as int - 1), NL)
                    + out@.subrange(b as int - 1, e as int));
        }
        b -= 1;
    }
    proof {
        if b > 0 {
            let sb = out@.subrange(0, b as int);
            assert(sb.last() == out@[b as int - 1]);
            assert(suffix_after(sb, NL) =~= Seq::<u8>::empty());
        } else {
            assert(out@.subrange(0, 0) =~= Seq::<u8>::empty());
        }
        assert(Seq::<u8>::empty() + out@.subrange(b as int, e as int)
            =~= out@.subrange(b as int, e as int));
        assert(suffix_after(strip_trailing(out@, NL), NL) == out@.subrange(b as int, e as int));
    }

    let ghost line = out@.subrange(b as int, e as int);

    // Find where the token after the last double-space starts.
    let mut start: usize = 0;
    let mut j: usize = 0;
    while j < e - b
        invariant
            b <= e <= len,
            len == out@.len(),
            start <= j <= e - b,
            line == out@.subrange(b as int, e as int),
            start as int == token_start(line, j as int),
        decreases e - b - j,
    {
        if j >= 1 && out[b + j - 1] == SP && out[b + j] == SP {
            start = j + 1;
        }
        j += 1;
        proof {
            assert(line[j as int - 2] == out@[b as int + j - 2] || j < 2);
            assert(line[j as int - 1] == out@[b as int + j - 1]);
        }
    }
    proof {
        assert(start as int == token_start(line, line.len() as int));
        assert(last_gap_token(line) =~= out@.subrange(b as int + start as int, e as int));
    }

    // Trim whitespace around the token.
    let lo0: usize = b + start;
    let ghost tok = out@.subrange(lo0 as int, e as int);
    let mut hi: usize = e;
    while hi > lo0 && is_space(out[hi - 1])
        invariant
            lo0 <= hi <= e <= len,
            len == out@.len(),
            tok == out@.subrange(lo0 as int, e as int),
            trim_end(tok) == trim_end(out@.subrange(lo0 as int, hi as int)),
        decreases hi,
    {
        proof {
            let sh = out@.subrange(lo0 as int, hi as int);
            assert(sh.last() == out@[hi as int - 1]);
            assert(sh.drop_last() =~= out@.subrange(lo0 as int, hi as int - 1));
        }
        hi -= 1;
    }
    proof {
        if hi > lo0 {
            assert(out@.subrange(lo0 as int, hi as int).last() == out@[hi as int - 1]);
        }
        assert(trim_end(tok) == out@.subrange(lo0 as int, hi as int));
    }
    let mut lo: usize = lo0;
    while lo < hi && is_space(out[lo])
        invariant
            lo0 <= lo <= hi <= len,
            len == out@.len(),
            trim_bytes(tok) == trim_start(out@.subrange(lo as int, hi as int)),
        decreases hi - lo,
    {
        proof {
            let sl = out@.subrange(lo as int, hi as int);
            assert(sl.first() == out@[lo as int]);
            assert(sl.drop_first() =~= out@.subrange(lo as int + 1, hi as int));
        }
        lo += 1;
    }
    proof {
        if lo < hi {
            assert(out@.subrange(lo as int, hi as int).first() == out@[lo as int]);
        }
        assert(trim_bytes(tok) == out@.subrange(lo as int, hi as int));
    }

    if lo == hi {
        proof {
            assert(out@.subrange(lo as int, hi as int).len() == 0);
        }
        return None;
    }

    // Copy the token out.
    let mut v: Vec<u8> = Vec::new();
    let mut k: usize = lo;
    proof {
        assert(v@ =~= out@.subrange(lo as int, lo as int));
    }
    while k < hi
        invariant
            lo <= k <= hi <= len,
            len == out@.len(),
            v@ == out@.subrange(lo as int, k as int),
        decreases hi - k,
    {
        v.push(out[k]);
        k += 1;
        proof {
            assert(v@ =~= out@.subrange(lo as int, k as int));
        }
    }
    Some(v)
}

/// Whether an entry name carries the application-bundle extension: it ends
/// in `.app` with a non-empty stem before the dot.
pub open spec fn spec_is_bundle(name: Seq<u8>) -> bool {
    &&& name.len() >= 5
    &&& name[name.len() - 4] == 46
    &&& name[name.len() - 3] == 97
    &&& name[name.len() - 2] == 112
    &&& name[name.len() - 1] == 112
}

/// Whether a file name carries the disk-image extension: it ends in `.dmg`
/// with a non-empty stem before the dot.
pub open spec fn spec_is_disk_image(name: Seq<u8>) -> bool {
    &&& name.len() >= 5
    &&& name[name.len() - 4] == 46
    &&& name[name.len() - 3] == 100
    &&& name[name.len() - 2] == 109
    &&& name[name.len() - 1] == 103
}

/// Test an entry name for the `.app` extension.
pub fn is_bundle_name(name: &Vec<u8>) -> (r: bool)
    ensures
        r == spec_is_bundle(name@),
{
    let n = name.len();
    n >= 5 && name[n - 4] == 46 && name[n - 3] == 97 && name[n - 2] == 112 && name[n - 1] == 112
}

/// Test a file name for the `.dmg` extension.
pub fn is_disk_image_name(name: &Vec<u8>) -> (r: bool)
    ensures
        r == spec_is_disk_image(name@),
{
    let n = name.len();
    n >= 5 && name[n - 4] == 46 && name[n - 3] == 100 && name[n - 2] == 109 && name[n - 1] == 103
}

/// The subsequence of entry names that are application bundles, in their
/// original order.
pub open spec fn spec_bundles(names: Seq<Seq<u8>>) -> Seq<Seq<u8>>
    decreases names.len(),
{
    if names.len() == 0 {
        Seq::empty()
    } else if spec_is_bundle(names.last()) {
        spec_bundles(names.drop_last()).push(names.last())
    } else {
        spec_bundles(names.drop_last())
    }
}

/// The subsequence of file names that are disk images, in their original
/// order.
pub open spec fn spec_disk_images(names: Seq<Seq<u8>>) -> Seq<Seq<u8>>
    decreases names.len(),
{
    if names.len() == 0 {
        Seq::empty()
    } else if spec_is_disk_image(names.last()) {
        spec_disk_images(names.drop_last()).push(names.last())
    } else {
        spec_disk_images(names.drop_last())
    }
}

/// Keep the entry names that are application bundles, in order. Entries
/// without the marker extension at the top level are dropped; there is no
/// recursive search.
pub fn select_bundles(names: &Vec<Vec<u8>>) -> (r: Vec<Vec<u8>>)
    ensures
        r.deep_view() == spec_bundles(names.deep_view()),
{
    let mut r: Vec<Vec<u8>> = Vec::new();
    let mut i: usize = 0;
    proof {
        assert(names.deep_view().subrange(0, 0) =~= Seq::<Seq<u8>>::empty());
        assert(r.deep_view() =~= Seq::<Seq<u8>>::empty());
    }
    while i < names.len()
        invariant
            i <= names.len(),
            names.deep_view().len() == names@.len(),
            r.deep_view() == spec_bundles(names.deep_view().subrange(0, i as int)),
        decreases names.len() - i,
    {
        let ghost prev = r.deep_view();
        if is_bundle_name(&names[i]) {
            let c = names[i].clone();
            assert(c@ =~= names@[i as int]@);
            r.push(c);
            proof {
                assert(r.deep_view() =~~= prev.push(names@[i as int]@));
            }
        }
        i += 1;
        proof {
            let dv = names.deep_view();
            assert(dv.subrange(0, i as int).drop_last() =~= dv.subrange(0, i as int - 1));
            assert(dv.subrange(0, i as int).last() == dv[i as int - 1]);
            assert(dv[i as int - 1] == names@[i as int - 1]@);
        }
    }
    proof {
        assert(names.deep_view().subrange(0, names@.len() as int) =~= names.deep_view());
    }
    r
}

/// Keep the file names that are disk images, in order.
pub fn select_disk_images(names: &Vec<Vec<u8>>) -> (r: Vec<Vec<u8>>)
    ensures
        r.deep_view() == spec_disk_images(names.deep_view()),
{
    let mut r: Vec<Vec<u8>> = Vec::new();
    let mut i: usize = 0;
    proof {
        assert(names.deep_view().subrange(0, 0) =~= Seq::<Seq<u8>>::empty());
        assert(r.deep_view() =~= Seq::<Seq<u8>>::empty());
    }
    while i < names.len()
        invariant
            i <= names.len(),
            names.deep_view().len() == names@.len(),
            r.deep_view() == spec_disk_images(names.deep_view().subrange(0, i as int)),
        decreases names.len() - i,
    {
        let ghost prev = r.deep_view();
        if is_disk_image_name(&names[i]) {
            let c = names[i].clone();
            assert(c@ =~= names@[i as int]@);
            r.push(c);
            proof {
                assert(r.deep_view() =~~= prev.push(names@[i as int]@));
            }
        }
        i += 1;
        proof {
            let dv = names.deep_view();
            assert(dv.subrange(0, i as int).drop_last() =~= dv.subrange(0, i as int - 1));
            assert(dv.subrange(0, i as int).last() == dv[i as int - 1]);
            assert(dv[i as int - 1] == names@[i as int - 1]@);
        }
    }
    proof {
        assert(names.deep_view().subrange(0, names@.len() as int) =~= names.deep_view());
    }
    r
}

/// The part of a name before its first dot: the display name of a bundle.
pub open spec fn prefix_before(s: Seq<u8>, d: u8) -> Seq<u8>
    decreases s.len(),
{
    if s.len() == 0 {
        s
    } else if s.first() == d {
        Seq::empty()
    } else {
        seq![s.first()] + prefix_before(s.drop_first(), d)
    }
}

/// The display name of a bundle: everything before the first dot.
pub fn bundle_stem(name: &Vec<u8>) -> (r: Vec<u8>)
    ensures
        r@ == prefix_before(name@, 46),
{
    let len = name.len();
    let mut i: usize = 0;
    proof {
        assert(name@.subrange(0, 0) =~= Seq::<u8>::empty());
        assert(name@.skip(0) =~= name@);
        assert(Seq::<u8>::empty() + prefix_before(name@, 46) =~= prefix_before(name@, 46));
    }
    while i < len && name[i] != 46
        invariant
            i <= len,
            len == name@.len(),
            prefix_before(name@, 46)
                == name@.subrange(0, i as int) + prefix_before(name@.skip(i as int), 46),
        decreases len - i,
    {
        proof {
            let sk = name@.skip(i as int);
            assert(sk.first() == name@[i as int]);
            assert(sk.drop_first() =~= name@.skip(i as int + 1));
            assert(name@.subrange(0, i as int) + (seq![name@[i as int]]
                + prefix_before(name@.skip(i as int + 1), 46))
                =~= name@.subrange(0, i as int + 1)
                    + prefix_before(name@.skip(i as int + 1), 46));
        }
        i += 1;
    }
    proof {
        let sk = name@.skip(i as int);
        if i < len {
            assert(sk.first() == name@[i as int]);
            assert(prefix_before(sk, 46) =~= Seq::<u8>::empty());
        } else {
            assert(sk.len() == 0);
        }
        assert(name@.subrange(0, i as int) + prefix_before(name@.skip(i as int), 46)
            =~= name@.subrange(0, i as int));
    }
    let mut r: Vec<u8> = Vec::new();
    let mut k: usize = 0;
    proof {
        assert(r@ =~= name@.subrange(0, 0));
    }
    while k < i
        invariant
            k <= i <= len,
            len == name@.len(),
            r@ == name@.subrange(0, k as int),
        decreases i - k,
    {
        r.push(name[k]);
        k += 1;
        proof {
            assert(r@ =~= name@.subrange(0, k as int));
        }
    }
    r
}

} // verus!
