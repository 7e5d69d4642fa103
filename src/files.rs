//! Local content: `file://` source URIs, and the size of mounted file trees.
use vstd::prelude::*;
use vstd::string::*;

use crate::error::InfoError;

verus! {

/// The local path that a `file://` URI addresses; none for any other text.
pub open spec fn file_uri_path(uri: Seq<char>) -> Option<Seq<char>> {
    if uri.len() >= 7 && uri.subrange(0, 7) == "file://"@ {
        Some(uri.subrange(7, uri.len() as int))
    } else {
        None
    }
}

/// The local path of a content source URI. `owner` names the component
/// for the diagnostic when the source is missing.
pub fn local_source_path(uri: &Option<String>, owner: &str) -> (r: Result<String, InfoError>)
    ensures
        uri is None ==> (r matches Err(InfoError::MissingSource(o)) && o@ == owner@),
        uri is Some && file_uri_path(uri->Some_0@) is None ==> (r matches Err(
            InfoError::NotFileUri(u),
        ) && u@ == uri->Some_0@),
        uri is Some && file_uri_path(uri->Some_0@) is Some ==> (r matches Ok(p) && p@
            == file_uri_path(uri->Some_0@)->Some_0),
{
    match uri {
        None => Err(InfoError::MissingSource(owner.to_owned())),
        Some(u) => {
            let s = u.as_str();
            proof {
                reveal_strlit("file://");
            }
            let n = s.unicode_len();
            if n >= 7 && s.get_char(0) == 'f' && s.get_char(1) == 'i' && s.get_char(2) == 'l'
                && s.get_char(3) == 'e' && s.get_char(4) == ':' && s.get_char(5) == '/'
                && s.get_char(6) == '/' {
                assert(s@.subrange(0, 7) =~= "file://"@);
                Ok(String::from_str(s.substring_char(7, n)))
            } else {
                assert(n >= 7 ==> s@.subrange(0, 7)[0] == s@[0]);
                assert(n >= 7 ==> s@.subrange(0, 7)[1] == s@[1]);
                assert(n >= 7 ==> s@.subrange(0, 7)[2] == s@[2]);
                assert(n >= 7 ==> s@.subrange(0, 7)[3] == s@[3]);
                assert(n >= 7 ==> s@.subrange(0, 7)[4] == s@[4]);
                assert(n >= 7 ==> s@.subrange(0, 7)[5] == s@[5]);
                assert(n >= 7 ==> s@.subrange(0, 7)[6] == s@[6]);
                Err(InfoError::NotFileUri(u.clone()))
            }
        },
    }
}

/// One entry met while walking a mounted file tree.
pub struct WalkEntry {
    /// Whether the entry is a regular file (not a directory, link or other).
    pub is_file: bool,
    /// The entry's size in bytes.
    pub size: u64,
}

/// The number of regular files among `es`.
pub open spec fn file_count(es: Seq<WalkEntry>) -> nat
    decreases es.len(),
{
    if es.len() == 0 {
        0
    } else {
        file_count(es.drop_last()) + if es.last().is_file { 1nat } else { 0nat }
    }
}

/// The total size of the regular files among `es`.
pub open spec fn file_bytes(es: Seq<WalkEntry>) -> nat
    decreases es.len(),
{
    if es.len() == 0 {
        0
    } else {
        file_bytes(es.drop_last()) + if es.last().is_file { es.last().size as nat } else { 0nat }
    }
}

proof fn lemma_tally_bounds(es: Seq<WalkEntry>)
    ensures
        file_count(es) <= es.len(),
        file_bytes(es) <= es.len() * 0xffff_ffff_ffff_ffffnat,
    decreases es.len(),
{
    if es.len() > 0 {
        lemma_tally_bounds(es.drop_last());
        assert(es.len() * 0xffff_ffff_ffff_ffffnat == (es.len() - 1) * 0xffff_ffff_ffff_ffffnat
            + 0xffff_ffff_ffff_ffffnat) by (nonlinear_arith);
    }
}

/// The files of a mounted tree: how many there are, and their total size.
pub struct Tally {
    pub count: u64,
    pub bytes: u128,
}

/// Counts the regular files among the walked entries and sums their sizes;
/// directories and other entries count for nothing.
pub fn tally(entries: &Vec<WalkEntry>) -> (r: Tally)
    ensures
        r.count == file_count(entries@),
        r.bytes == file_bytes(entries@),
{
    let mut count: u64 = 0;
    let mut bytes: u128 = 0;
    let mut i: usize = 0;
    while i < entries.len()
        invariant
            i <= entries.len(),
            count == file_count(entries@.subrange(0, i as int)),
            bytes == file_bytes(entries@.subrange(0, i as int)),
        decreases entries.len() - i,
    {
        let ghost pre = entries@.subrange(0, i as int);
        let ghost next = entries@.subrange(0, i + 1);
        assert(next.drop_last() =~= pre);
        proof {
            lemma_tally_bounds(next);
            assert(next.len() <= usize::MAX);
            assert(next.len() * 0xffff_ffff_ffff_ffffnat <= 0xffff_ffff_ffff_ffffnat
                * 0xffff_ffff_ffff_ffffnat) by (nonlinear_arith)
                requires next.len() <= 0xffff_ffff_ffff_ffffnat;
        }
        if entries[i].is_file {
            count = count + 1;
            bytes = bytes + entries[i].size as u128;
        }
        i = i + 1;
    }
    assert(entries@.subrange(0, entries.len() as int) =~= entries@);
    Tally { count, bytes }
}


pub open spec fn digit_text(d: nat) -> Seq<char> {
    if d == 0 {
        "0"@
    } else if d == 1 {
        "1"@
    } else if d == 2 {
        "2"@
    } else if d == 3 {
        "3"@
    } else if d == 4 {
        "4"@
    } else if d == 5 {
        "5"@
    } else if d == 6 {
        "6"@
    } else if d == 7 {
        "7"@
    } else if d == 8 {
        "8"@
    } else {
        "9"@
    }
}

/// The decimal digits of `n`, without leading zeros.
pub open spec fn decimal(n: nat) -> Seq<char>
    decreases n,
{
    if n < 10 {
        digit_text(n)
    } else {
        decimal(n / 10) + digit_text(n % 10)
    }
}

fn digit_string(d: u64) -> (r: String)
    requires
        d < 10,
    ensures
        r@ == digit_text(d as nat),
{
    if d == 0 {
        String::from_str("0")
    } else if d == 1 {
        String::from_str("1")
    } else if d == 2 {
        String::from_str("2")
    } else if d == 3 {
        String::from_str("3")
    } else if d == 4 {
        String::from_str("4")
    } else if d == 5 {
        String::from_str("5")
    } else if d == 6 {
        String::from_str("6")
    } else if d == 7 {
        String::from_str("7")
    } else if d == 8 {
        String::from_str("8")
    } else {
        String::from_str("9")
    }
}

/// `n` written in decimal.
pub fn decimal_string(n: u64) -> (r: String)
    ensures
        r@ == decimal(n as nat),
{
    let mut rest: u64 = n;
    let mut tail = String::new();
    while rest >= 10
        invariant
            decimal(n as nat) == decimal(rest as nat) + tail@,
        decreases rest,
    {
        let d = digit_string(rest % 10);
        let ghost old_tail = tail@;
        tail = d.concat(tail.as_str());
        assert(decimal(rest as nat) == decimal((rest / 10) as nat) + digit_text((rest % 10) as nat));
        assert(decimal(rest as nat) + old_tail =~= decimal((rest / 10) as nat) + tail@);
        rest = rest / 10;
    }
    let head = digit_string(rest);
    head.concat(tail.as_str())
}

} // verus!
