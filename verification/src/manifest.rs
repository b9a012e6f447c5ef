use vstd::prelude::*;

use crate::util::copy_range;

verus! {

/// The ASCII bytes of the marker `version = ` that opens a declared-version
/// line.
pub open spec fn version_marker() -> Seq<u8> {
    seq![118u8, 101u8, 114u8, 115u8, 105u8, 111u8, 110u8, 32u8, 61u8, 32u8]
}

/// Whether `s` begins with `p`.
pub open spec fn starts_with(s: Seq<u8>, p: Seq<u8>) -> bool {
    p.len() <= s.len() && s.subrange(0, p.len() as int) == p
}

/// A line as the scan reads it: one trailing carriage return removed, so that
/// manifests with CRLF line endings read the same as LF ones.
pub open spec fn chomp_cr(line: Seq<u8>) -> Seq<u8> {
    if line.len() > 0 && line.last() == 13u8 {
        line.drop_last()
    } else {
        line
    }
}

/// What one line contributes: the text after the marker, where the line
/// begins with it; nothing otherwise.
pub open spec fn line_version(line: Seq<u8>) -> Option<Seq<u8>> {
    let l = chomp_cr(line);
    if starts_with(l, version_marker()) {
        Some(l.skip(version_marker().len() as int))
    } else {
        None
    }
}

/// Scan for the first version line. `line` is the current line read so far,
/// `rest` the input not yet read; lines are separated by a line feed.
pub open spec fn scan_version(line: Seq<u8>, rest: Seq<u8>) -> Option<Seq<u8>>
    decreases rest.len(),
{
    if rest.len() == 0 {
        line_version(line)
    } else if rest.first() == 10u8 {
        match line_version(line) {
            Some(v) => Some(v),
            None => scan_version(Seq::empty(), rest.drop_first()),
        }
    } else {
        scan_version(line.push(rest.first()), rest.drop_first())
    }
}

/// The raw declared version of a manifest: the remainder of its first line
/// that begins with `version = `, quotes kept.
pub open spec fn raw_version_of(m: Seq<u8>) -> Option<Seq<u8>> {
    scan_version(Seq::empty(), m)
}

/// One pair of surrounding double quotes removed, where both are present.
pub open spec fn trim_quotes(v: Seq<u8>) -> Seq<u8> {
    if v.len() >= 2 && v.first() == 34u8 && v.last() == 34u8 {
        v.subrange(1, v.len() - 1)
    } else {
        v
    }
}

/// The declared version of a manifest: the value of its first `version = `
/// line, with a single pair of surrounding double quotes trimmed; nothing
/// where no such line exists, in which case the manifest is malformed.
pub open spec fn manifest_version(m: Seq<u8>) -> Option<Seq<u8>> {
    match raw_version_of(m) {
        Some(v) => Some(trim_quotes(v)),
        None => None,
    }
}

/// The marker bytes as a vector, for the executable scan.
fn version_marker_vec() -> (r: Vec<u8>)
    ensures
        r@ == version_marker(),
{
    let mut v: Vec<u8> = Vec::new();
    v.push(118);
    v.push(101);
    v.push(114);
    v.push(115);
    v.push(105);
    v.push(111);
    v.push(110);
    v.push(32);
    v.push(61);
    v.push(32);
    proof {
        assert(v@ =~= version_marker());
    }
    v
}

/// Check one line for the marker and hand back what follows it.
fn line_version_exec(line: &Vec<u8>) -> (r: Option<Vec<u8>>)
    ensures
        r is Some <==> line_version(line@) is Some,
        r matches Some(v) ==> line_version(line@) == Some(v@),
{
    let len = line.len();
    let effective: usize = if len > 0 && line[len - 1] == 13 {
        len - 1
    } else {
        len
    };
    proof {
        assert(chomp_cr(line@) =~= line@.subrange(0, effective as int));
        assert(version_marker().len() == 10);
    }
    if effective < 10 {
        return None;
    }
    let marker = version_marker_vec();
    let mut j: usize = 0;
    while j < 10
        invariant
            j <= 10,
            10 <= effective <= line@.len(),
            marker@ == version_marker(),
            chomp_cr(line@) == line@.subrange(0, effective as int),
            forall|k: int| 0 <= k < j ==> line@[k] == version_marker()[k],
        decreases 10 - j,
    {
        if line[j] != marker[j] {
            proof {
                let l = chomp_cr(line@);
                assert(l[j as int] == line@[j as int]);
                if starts_with(l, version_marker()) {
                    assert(l.subrange(0, 10)[j as int] == version_marker()[j as int]);
                    assert(false);
                }
            }
            return None;
        }
        j = j + 1;
    }
    proof {
        let l = chomp_cr(line@);
        assert(l.subrange(0, 10) =~= version_marker());
        assert(l.skip(10) =~= line@.subrange(10, effective as int));
    }
    Some(copy_range(line.as_slice(), 10, effective))
}

/// Trim a single pair of surrounding double quotes.
fn trim_quotes_exec(v: Vec<u8>) -> (r: Vec<u8>)
    ensures
        r@ == trim_quotes(v@),
{
    let len = v.len();
    if len >= 2 && v[0] == 34 && v[len - 1] == 34 {
        copy_range(v.as_slice(), 1, len - 1)
    } else {
        v
    }
}

/// Extract the declared version from manifest text: scan its lines for the
/// first beginning with `version = `, take the remainder, and trim a single
/// pair of surrounding double quotes. Nothing comes back where no such line
/// exists.
pub fn extract_version(manifest: &[u8]) -> (r: Option<Vec<u8>>)
    ensures
        r is Some <==> manifest_version(manifest@) is Some,
        r matches Some(v) ==> manifest_version(manifest@) == Some(v@),
{
    let n = manifest.len();
    let mut line: Vec<u8> = Vec::new();
    let mut i: usize = 0;
    proof {
        assert(manifest@.skip(0) =~= manifest@);
    }
    while i < n
        invariant
            i <= n,
            n == manifest@.len(),
            raw_version_of(manifest@) == scan_version(line@, manifest@.skip(i as int)),
        decreases n - i,
    {
        let c = manifest[i];
        proof {
            assert(manifest@.skip(i as int).first() == manifest@[i as int]);
            assert(manifest@.skip(i as int).drop_first() =~= manifest@.skip(i as int + 1));
        }
        if c == 10 {
            let found = line_version_exec(&line);
            match found {
                Some(v) => {
                    proof {
                        assert(raw_version_of(manifest@) == line_version(line@));
                    }
                    return Some(trim_quotes_exec(v));
                },
                None => {
                    line.clear();
                },
            }
        } else {
            line.push(c);
        }
        i = i + 1;
    }
    proof {
        assert(manifest@.skip(n as int).len() == 0);
    }
    let found = line_version_exec(&line);
    match found {
        Some(v) => Some(trim_quotes_exec(v)),
        None => None,
    }
}

} // verus!
