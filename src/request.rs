//! Upload paths of the recorder: `/<stream>/<filename>` for a manifest,
//! `/<stream>/<quality>/init.m4s` for an initialization segment and
//! `/<stream>/<quality>/<number>.m4s` for a media segment.

use vstd::prelude::*;
use crate::text::{
    append_decimal, decimal, is_digit, lemma_decimal_digits, lemma_parse_decimal, parse_u32,
    parse_u32_spec,
};

verus! {

/// The path without its leading slashes.
pub open spec fn trim_slashes(s: Seq<char>) -> Seq<char>
    decreases s.len(),
{
    if s.len() > 0 && s[0] == '/' {
        trim_slashes(s.drop_first())
    } else {
        s
    }
}

/// The positions of the slashes in `t`, in increasing order.
pub open spec fn slash_positions(t: Seq<char>) -> Seq<int>
    decreases t.len(),
{
    if t.len() == 0 {
        Seq::empty()
    } else if t.last() == '/' {
        slash_positions(t.drop_last()).push(t.len() - 1)
    } else {
        slash_positions(t.drop_last())
    }
}

/// Part `k` of `t` split at the slashes `p`.
pub open spec fn part(t: Seq<char>, p: Seq<int>, k: int) -> Seq<char> {
    let begin = if k == 0 {
        0
    } else {
        p[k - 1] + 1
    };
    let end = if k == p.len() {
        t.len() as int
    } else {
        p[k]
    };
    t.subrange(begin, end)
}

pub open spec fn has_m4s_suffix(f: Seq<char>) -> bool {
    &&& f.len() >= 4
    &&& f[f.len() - 4] == '.'
    &&& f[f.len() - 3] == 'm'
    &&& f[f.len() - 2] == '4'
    &&& f[f.len() - 1] == 's'
}

pub open spec fn is_init_name(name: Seq<char>) -> bool {
    name == seq!['i', 'n', 'i', 't']
}

/// What a request path names.
pub struct RequestParams {
    pub stream_name: String,
    pub quality_idx: Option<u32>,
    pub segment: Option<u32>,
    pub is_manifest: bool,
    pub is_init: bool,
}

/// The parameters a path names, as values: `Err` holds the error message.
pub open spec fn params_of(path: Seq<char>) -> Result<
    (Seq<char>, Option<u32>, Option<u32>, bool, bool),
    Seq<char>,
> {
    let t = trim_slashes(path);
    let p = slash_positions(t);
    if p.len() == 1 {
        Ok((part(t, p, 0), None, None, true, false))
    } else if p.len() == 2 {
        let file = part(t, p, 2);
        let quality = part(t, p, 1);
        if !has_m4s_suffix(file) {
            Err("Invalid filename: must end with .m4s"@)
        } else if parse_u32_spec(quality) is None {
            Err("Invalid quality index: "@ + quality)
        } else {
            let name = file.subrange(0, file.len() - 4);
            if is_init_name(name) {
                Ok((part(t, p, 0), parse_u32_spec(quality), None, false, true))
            } else if parse_u32_spec(name) is None {
                Err("Invalid segment number: "@ + name)
            } else {
                Ok((part(t, p, 0), parse_u32_spec(quality), parse_u32_spec(name), false, false))
            }
        }
    } else {
        Err("Invalid path: expected 2-3 parts, got "@ + decimal((p.len() + 1) as nat))
    }
}

impl RequestParams {
    pub open spec fn spec_tuple(&self) -> (Seq<char>, Option<u32>, Option<u32>, bool, bool) {
        (self.stream_name@, self.quality_idx, self.segment, self.is_manifest, self.is_init)
    }
}

proof fn lemma_trim_step(s: Seq<char>, i: int)
    requires
        0 <= i < s.len(),
        s[i] == '/',
    ensures
        trim_slashes(s.subrange(i, s.len() as int)) == trim_slashes(
            s.subrange(i + 1, s.len() as int),
        ),
{
    assert(s.subrange(i, s.len() as int).drop_first() =~= s.subrange(i + 1, s.len() as int));
}

/// The text of `s` from `begin` to `end`, as a new string.
fn substring(s: &str, begin: usize, end: usize) -> (r: String)
    requires
        begin <= end <= s@.len(),
    ensures
        r@ == s@.subrange(begin as int, end as int),
{
    s.substring_char(begin, end).to_owned()
}

fn literal(s: &str) -> (r: String)
    ensures
        r@ == s@,
{
    s.to_owned()
}

/// Whether the last four characters of `s[begin..end]` are `.m4s`.
fn ends_with_m4s(s: &str, begin: usize, end: usize) -> (r: bool)
    requires
        begin <= end <= s@.len(),
    ensures
        r == has_m4s_suffix(s@.subrange(begin as int, end as int)),
{
    if end - begin < 4 {
        return false;
    }
    s.get_char(end - 4) == '.' && s.get_char(end - 3) == 'm' && s.get_char(end - 2) == '4'
        && s.get_char(end - 1) == 's'
}

fn is_init_at(s: &str, begin: usize, end: usize) -> (r: bool)
    requires
        begin <= end <= s@.len(),
    ensures
        r == is_init_name(s@.subrange(begin as int, end as int)),
{
    let ghost name = s@.subrange(begin as int, end as int);
    if end - begin != 4 {
        assert(!is_init_name(name)) by {
            assert(seq!['i', 'n', 'i', 't'].len() == 4);
        }
        return false;
    }
    assert(name[0] == s@[begin as int] && name[1] == s@[begin + 1] && name[2] == s@[begin + 2]
        && name[3] == s@[begin + 3]);
    let r = s.get_char(begin) == 'i' && s.get_char(begin + 1) == 'n' && s.get_char(begin + 2)
        == 'i' && s.get_char(begin + 3) == 't';
    proof {
        if r {
            assert(name =~= seq!['i', 'n', 'i', 't']);
        }
    }
    r
}

/// The position of the first character after the leading slashes.
fn trimmed_start(path: &str) -> (r: usize)
    ensures
        r <= path@.len(),
        trim_slashes(path@) == path@.subrange(r as int, path@.len() as int),
{
    let n = path.unicode_len();
    let mut start: usize = 0;
    assert(path@.subrange(0, n as int) =~= path@);
    while start < n && path.get_char(start) == '/'
        invariant
            start <= n,
            n == path@.len(),
            trim_slashes(path@) == trim_slashes(path@.subrange(start as int, n as int)),
        decreases n - start,
    {
        proof {
            lemma_trim_step(path@, start as int);
        }
        start = start + 1;
    }
    start
}

/// The slash positions of `path[start..]`, counted from `start`.
fn slash_offsets(path: &str, start: usize) -> (r: Vec<usize>)
    requires
        start <= path@.len(),
    ensures
        r@.map_values(|x: usize| x as int) == slash_positions(
            path@.subrange(start as int, path@.len() as int),
        ),
        forall|k: int| 0 <= k < r@.len() ==> start + r@[k] < path@.len(),
        forall|a: int, b: int| 0 <= a < b < r@.len() ==> r@[a] < r@[b],
        r@.len() <= path@.len() - start,
{
    let n = path.unicode_len();
    let ghost t = path@.subrange(start as int, n as int);
    let mut slashes: Vec<usize> = Vec::new();
    let mut j: usize = start;
    while j < n
        invariant
            start <= j <= n,
            n == path@.len(),
            t == path@.subrange(start as int, n as int),
            slashes@.map_values(|x: usize| x as int) == slash_positions(t.take(j - start)),
            forall|k: int| 0 <= k < slashes@.len() ==> slashes@[k] < j - start,
            forall|a: int, b: int| 0 <= a < b < slashes@.len() ==> slashes@[a] < slashes@[b],
            slashes@.len() <= j - start,
        decreases n - j,
    {
        let ghost before = slashes@.map_values(|x: usize| x as int);
        let ghost next = t.take(j + 1 - start);
        assert(next.drop_last() =~= t.take(j - start));
        if path.get_char(j) == '/' {
            slashes.push(j - start);
            assert(slashes@.map_values(|x: usize| x as int) =~= before.push(j - start));
        }
        j = j + 1;
    }
    assert(t.take(n - start) =~= t);
    slashes
}

impl RequestParams {
    /// Reads the parameters from an upload path. Leading slashes are ignored;
    /// the rest must have two or three parts separated by slashes.
    pub fn from_path(path: &str) -> (r: Result<RequestParams, String>)
        requires
            path@.len() < usize::MAX,
        ensures
            match (r, params_of(path@)) {
                (Ok(params), Ok(t)) => params.spec_tuple() == t,
                (Err(msg), Err(m)) => msg@ == m,
                _ => false,
            },
    {
        let n = path.unicode_len();
        let start = trimmed_start(path);
        let ghost t = path@.subrange(start as int, n as int);
        let slashes = slash_offsets(path, start);
        let ghost p = slash_positions(t);
        if slashes.len() == 1 {
            let name = substring(path, start, start + slashes[0]);
            assert(name@ =~= part(t, p, 0));
            Ok(RequestParams {
                stream_name: name,
                quality_idx: None,
                segment: None,
                is_manifest: true,
                is_init: false,
            })
        } else if slashes.len() == 2 {
            let q0 = slashes[0];
            let q1 = slashes[1];
            let stream_name = substring(path, start, start + q0);
            assert(stream_name@ =~= part(t, p, 0));
            let ghost quality = part(t, p, 1);
            let ghost file = part(t, p, 2);
            assert(quality =~= path@.subrange(start + q0 + 1, start + q1 as int));
            assert(file =~= path@.subrange(start + q1 + 1, n as int));
            if !ends_with_m4s(path, start + q1 + 1, n) {
                return Err(literal("Invalid filename: must end with .m4s"));
            }
            let quality_text = path.substring_char(start + q0 + 1, start + q1);
            let quality_idx = match parse_u32(quality_text) {
                Some(q) => q,
                None => {
                    let mut msg = literal("Invalid quality index: ");
                    msg.append(quality_text);
                    return Err(msg);
                },
            };
            let ghost name = file.subrange(0, file.len() - 4);
            assert(name =~= path@.subrange(start + q1 + 1, n - 4));
            if is_init_at(path, start + q1 + 1, n - 4) {
                return Ok(RequestParams {
                    stream_name,
                    quality_idx: Some(quality_idx),
                    segment: None,
                    is_manifest: false,
                    is_init: true,
                });
            }
            let name_text = path.substring_char(start + q1 + 1, n - 4);
            match parse_u32(name_text) {
                Some(segment) => Ok(RequestParams {
                    stream_name,
                    quality_idx: Some(quality_idx),
                    segment: Some(segment),
                    is_manifest: false,
                    is_init: false,
                }),
                None => {
                    let mut msg = literal("Invalid segment number: ");
                    msg.append(name_text);
                    Err(msg)
                },
            }
        } else {
            let mut msg = literal("Invalid path: expected 2-3 parts, got ");
            append_decimal(&mut msg, (slashes.len() + 1) as u64);
            Err(msg)
        }
    }
}

/// The name under which the recorder stores an upload, `seq` being the
/// upload's sequence number within its stream or quality.
pub open spec fn filename_of(
    stream: Seq<char>,
    quality: Option<u32>,
    segment: Option<u32>,
    is_manifest: bool,
    seq: u32,
) -> Seq<char> {
    if is_manifest {
        stream + "/manifests/"@ + decimal(seq as nat) + "_index.mpd"@
    } else {
        match quality {
            Some(q) => match segment {
                Some(n) => stream + "/"@ + decimal(q as nat) + "/"@ + decimal(seq as nat) + "_"@
                    + decimal(n as nat) + ".m4s"@,
                None => stream + "/"@ + decimal(q as nat) + "/"@ + decimal(seq as nat)
                    + "_init.m4s"@,
            },
            None => stream + "/none/"@ + decimal(seq as nat) + "_none"@,
        }
    }
}

/// The upload path of media segment `segment` of quality `quality` under `base`.
pub open spec fn segment_path_of(base: Seq<char>, quality: u32, segment: u32) -> Seq<char> {
    base + "/"@ + decimal(quality as nat) + "/"@ + decimal(segment as nat) + ".m4s"@
}

/// The upload path of the initialization segment of quality `quality` under `base`.
pub open spec fn init_path_of(base: Seq<char>, quality: u32) -> Seq<char> {
    base + "/"@ + decimal(quality as nat) + "/init.m4s"@
}

impl RequestParams {
    /// The storage name of the upload with sequence number `seq`.
    pub fn format_filename(&self, seq: u32) -> (r: String)
        ensures
            r@ == filename_of(
                self.stream_name@,
                self.quality_idx,
                self.segment,
                self.is_manifest,
                seq,
            ),
    {
        let mut name = self.stream_name.clone();
        if self.is_manifest {
            name.append("/manifests/");
            append_decimal(&mut name, seq as u64);
            name.append("_index.mpd");
            return name;
        }
        match self.quality_idx {
            Some(q) => {
                name.append("/");
                append_decimal(&mut name, q as u64);
                name.append("/");
                append_decimal(&mut name, seq as u64);
                match self.segment {
                    Some(n) => {
                        name.append("_");
                        append_decimal(&mut name, n as u64);
                        name.append(".m4s");
                    },
                    None => {
                        name.append("_init.m4s");
                    },
                }
            },
            None => {
                name.append("/none/");
                append_decimal(&mut name, seq as u64);
                name.append("_none");
            },
        }
        name
    }
}

/// The path under `base` to which a media segment is uploaded.
pub fn segment_path(base: &str, quality: u32, segment: u32) -> (r: String)
    ensures
        r@ == segment_path_of(base@, quality, segment),
{
    let mut path = base.to_owned();
    path.append("/");
    append_decimal(&mut path, quality as u64);
    path.append("/");
    append_decimal(&mut path, segment as u64);
    path.append(".m4s");
    path
}

/// The path under `base` to which an initialization segment is uploaded.
pub fn init_path(base: &str, quality: u32) -> (r: String)
    ensures
        r@ == init_path_of(base@, quality),
{
    let mut path = base.to_owned();
    path.append("/");
    append_decimal(&mut path, quality as u64);
    path.append("/init.m4s");
    path
}

proof fn lemma_slashes_concat(a: Seq<char>, b: Seq<char>)
    ensures
        slash_positions(a + b) == slash_positions(a) + slash_positions(b).map_values(
            |x: int| x + a.len(),
        ),
    decreases b.len(),
{
    if b.len() == 0 {
        assert(a + b =~= a);
        assert(slash_positions(a) + slash_positions(b).map_values(|x: int| x + a.len()) =~= slash_positions(a));
    } else {
        lemma_slashes_concat(a, b.drop_last());
        assert((a + b).drop_last() =~= a + b.drop_last());
        assert((a + b).last() == b.last());
        let head = slash_positions(a);
        let rest = slash_positions(b.drop_last()).map_values(|x: int| x + a.len());
        if b.last() == '/' {
            assert(slash_positions(b).map_values(|x: int| x + a.len()) =~= rest.push(
                b.len() - 1 + a.len(),
            ));
            assert(head + rest.push(a.len() + b.len() - 1) =~= (head + rest).push(a.len() + b.len() - 1));
        } else {
            assert(slash_positions(b).map_values(|x: int| x + a.len()) =~= rest);
        }
    }
}

proof fn lemma_no_slashes(x: Seq<char>)
    requires
        forall|i: int| 0 <= i < x.len() ==> x[i] != '/',
    ensures
        slash_positions(x) == Seq::<int>::empty(),
    decreases x.len(),
{
    if x.len() > 0 {
        lemma_no_slashes(x.drop_last());
    }
}

proof fn lemma_trim_one_slash(t: Seq<char>)
    requires
        t.len() > 0,
        t[0] != '/',
    ensures
        trim_slashes(seq!['/'] + t) == t,
{
    let path = seq!['/'] + t;
    assert(path[0] == '/');
    assert(path.drop_first() =~= t);
    assert(trim_slashes(path) == trim_slashes(t));
}

/// The slashes of `stream/dq/file` when none of the three holds one.
proof fn lemma_three_part_slashes(stream: Seq<char>, dq: Seq<char>, file: Seq<char>)
    requires
        forall|i: int| 0 <= i < stream.len() ==> stream[i] != '/',
        forall|i: int| 0 <= i < dq.len() ==> dq[i] != '/',
        forall|i: int| 0 <= i < file.len() ==> file[i] != '/',
    ensures
        slash_positions(stream + seq!['/'] + dq + seq!['/'] + file) == seq![
            stream.len() as int,
            (stream.len() + 1 + dq.len()) as int,
        ],
{
    lemma_no_slashes(stream);
    lemma_no_slashes(dq);
    lemma_no_slashes(file);
    lemma_no_slashes(seq!['/'].drop_last());
    assert(slash_positions(seq!['/']) =~= seq![0int]);
    let ls = stream.len() as int;
    let lq = dq.len() as int;
    lemma_slashes_concat(stream, seq!['/']);
    assert(slash_positions(stream + seq!['/']) =~= seq![ls]);
    lemma_slashes_concat(stream + seq!['/'], dq);
    assert(slash_positions(stream + seq!['/'] + dq) =~= seq![ls]);
    lemma_slashes_concat(stream + seq!['/'] + dq, seq!['/']);
    assert(slash_positions(stream + seq!['/'] + dq + seq!['/']) =~= seq![ls, ls + 1 + lq]);
    lemma_slashes_concat(stream + seq!['/'] + dq + seq!['/'], file);
    assert(slash_positions(stream + seq!['/'] + dq + seq!['/'] + file) =~= seq![ls, ls + 1 + lq]);
}

/// A media segment path built for a stream and quality reads back as that
/// stream, quality and segment number, whatever the numbers are, for any
/// non-empty stream name without a slash.
pub proof fn lemma_segment_path_round_trip(stream: Seq<char>, quality: u32, segment: u32)
    requires
        stream.len() > 0,
        forall|i: int| 0 <= i < stream.len() ==> stream[i] != '/',
    ensures
        params_of(segment_path_of(seq!['/'] + stream, quality, segment)) == Ok::<
            (Seq<char>, Option<u32>, Option<u32>, bool, bool),
            Seq<char>,
        >((stream, Some(quality), Some(segment), false, false)),
{
    reveal_strlit("/");
    reveal_strlit(".m4s");
    let dq = decimal(quality as nat);
    let dn = decimal(segment as nat);
    lemma_decimal_digits(quality as nat);
    lemma_decimal_digits(segment as nat);
    lemma_parse_decimal(quality);
    lemma_parse_decimal(segment);
    let suffix = seq!['.', 'm', '4', 's'];
    assert(".m4s"@ == suffix);
    let file = dn + suffix;
    let t = stream + seq!['/'] + dq + seq!['/'] + file;
    let path = segment_path_of(seq!['/'] + stream, quality, segment);
    assert(path =~= seq!['/'] + t);
    lemma_trim_one_slash(t);
    assert forall|i: int| 0 <= i < dq.len() implies dq[i] != '/' by {
        assert(is_digit(dq[i]));
    }
    assert forall|i: int| 0 <= i < file.len() implies file[i] != '/' by {
        if i < dn.len() {
            assert(is_digit(dn[i]));
        }
    }
    lemma_three_part_slashes(stream, dq, file);
    let p = slash_positions(t);
    let ls = stream.len() as int;
    assert(part(t, p, 0) =~= stream);
    assert(part(t, p, 1) =~= dq);
    assert(part(t, p, 2) =~= file);
    assert(has_m4s_suffix(file));
    assert(file.subrange(0, file.len() - 4) =~= dn);
    assert(!is_init_name(dn)) by {
        if is_init_name(dn) {
            assert(is_digit(dn[0]));
        }
    }
}

} // verus!
