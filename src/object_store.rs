//! How samples are laid out in the object store: one object per run, at
//! `runs/<run id>/samples.jsonl`, holding one encoded sample record per line.
use vstd::prelude::*;
use vstd::string::*;

use crate::eval::{SampleRecord, SampleResultLocation};
use crate::ids::{id_text, uuid_text};
use crate::settings::ObjectStoreSettings;

verus! {

/// The key of a run's samples object.
pub open spec fn samples_key_text(run_id: u128) -> Seq<char> {
    "runs/"@ + uuid_text(run_id) + "/samples.jsonl"@
}

/// The run that a batch of samples is filed under: that of its first record,
/// or `fresh` for an empty batch.
pub open spec fn batch_run(records: Seq<SampleRecord>, fresh: u128) -> u128 {
    if records.len() > 0 {
        records[0].run_id
    } else {
        fresh
    }
}

/// Lines joined into one text, each followed by a line break.
pub open spec fn jsonl_text(lines: Seq<Seq<char>>) -> Seq<char>
    decreases lines.len(),
{
    if lines.len() == 0 {
        Seq::empty()
    } else {
        jsonl_text(lines.drop_last()) + lines.last() + seq!['\n']
    }
}

/// Reads `t` character by character: `cur` is the line read so far and
/// `done` the lines completed so far.
pub open spec fn scan_lines(t: Seq<char>, cur: Seq<char>, done: Seq<Seq<char>>) -> (Seq<char>, Seq<Seq<char>>)
    decreases t.len(),
{
    if t.len() == 0 {
        (cur, done)
    } else if t[0] == '\n' {
        scan_lines(t.drop_first(), Seq::empty(), done.push(cur))
    } else {
        scan_lines(t.drop_first(), cur.push(t[0]), done)
    }
}

/// The complete lines of a text, each without its line break.
pub open spec fn lines_of(t: Seq<char>) -> Seq<Seq<char>> {
    scan_lines(t, Seq::empty(), Seq::empty()).1
}

/// `s` without the `/` characters at its end.
pub open spec fn trim_trailing_slashes(s: Seq<char>) -> Seq<char>
    decreases s.len(),
{
    if s.len() > 0 && s.last() == '/' {
        trim_trailing_slashes(s.drop_last())
    } else {
        s
    }
}

/// The address of an object: endpoint, bucket and key, separated by `/`.
pub open spec fn object_uri_text(endpoint: Seq<char>, bucket: Seq<char>, key: Seq<char>) -> Seq<char> {
    trim_trailing_slashes(endpoint) + seq!['/'] + bucket + seq!['/'] + key
}

pub fn samples_key(run_id: u128) -> (r: String)
    ensures
        r@ == samples_key_text(run_id),
{
    String::from_str("runs/").concat(id_text(run_id).as_str()).concat("/samples.jsonl")
}

/// The run that a batch of samples is filed under; `fresh` is a new
/// identifier, used only for an empty batch.
pub fn batch_run_id(records: &Vec<SampleRecord>, fresh: u128) -> (r: u128)
    ensures
        r == batch_run(records@, fresh),
{
    if records.len() > 0 {
        records[0].run_id
    } else {
        fresh
    }
}

/// The object body: each line followed by a line break.
pub fn jsonl_body(lines: &Vec<String>) -> (r: String)
    ensures
        r@ == jsonl_text(lines@.map_values(|l: String| l@)),
{
    let ghost views = lines@.map_values(|l: String| l@);
    proof {
        reveal_strlit("\n");
        assert("\n"@ =~= seq!['\n']);
        assert(views.subrange(0, 0) =~= Seq::<Seq<char>>::empty());
    }
    let mut body = String::new();
    let mut i: usize = 0;
    while i < lines.len()
        invariant
            i <= lines.len(),
            views == lines@.map_values(|l: String| l@),
            "\n"@ == seq!['\n'],
            body@ == jsonl_text(views.subrange(0, i as int)),
        decreases lines.len() - i,
    {
        body.append(lines[i].as_str());
        body.append("\n");
        proof {
            assert(views.subrange(0, i as int + 1).drop_last() =~= views.subrange(0, i as int));
        }
        i = i + 1;
    }
    proof {
        assert(views.subrange(0, lines.len() as int) =~= views);
    }
    body
}

/// The address of an object in a bucket.
pub fn object_uri(endpoint: &str, bucket: &str, key: &str) -> (r: String)
    ensures
        r@ == object_uri_text(endpoint@, bucket@, key@),
{
    let mut end = endpoint.unicode_len();
    proof {
        assert(endpoint@.subrange(0, end as int) =~= endpoint@);
    }
    while end > 0 && endpoint.get_char(end - 1) == '/'
        invariant
            end <= endpoint@.len(),
            trim_trailing_slashes(endpoint@) == trim_trailing_slashes(endpoint@.subrange(0, end as int)),
        decreases end,
    {
        proof {
            assert(endpoint@.subrange(0, end as int).drop_last() =~= endpoint@.subrange(0, end - 1));
        }
        end = end - 1;
    }
    proof {
        reveal_strlit("/");
        assert("/"@ =~= seq!['/']);
        if end == 0 {
            assert(endpoint@.subrange(0, 0) =~= Seq::<char>::empty());
        }
    }
    let base = endpoint.substring_char(0, end);
    String::from_str(base).concat("/").concat(bucket).concat("/").concat(key)
}

/// Whether the store accepted an upload: any status below 300.
pub fn upload_succeeded(status: u16) -> (r: bool)
    ensures
        r == (status < 300),
{
    status < 300
}

/// What the object store is asked to hold for a batch of samples.
#[derive(Clone, Debug)]
pub struct ObjectUpload {
    pub key: String,
    pub body: String,
    pub uri: String,
}

/// Lays out a batch of samples for upload. `lines` are the encoded records,
/// one per record and in the same order; `fresh` is a new identifier, used
/// only for an empty batch. When no encoding holds a line break, the body
/// reads back line by line as exactly those encodings.
pub fn prepare_upload(
    settings: &ObjectStoreSettings,
    records: &Vec<SampleRecord>,
    lines: &Vec<String>,
    fresh: u128,
) -> (u: ObjectUpload)
    requires
        lines@.len() == records@.len(),
    ensures
        u.key@ == samples_key_text(batch_run(records@, fresh)),
        u.body@ == jsonl_text(lines@.map_values(|l: String| l@)),
        u.uri@ == object_uri_text(settings.endpoint@, settings.bucket@, u.key@),
        (forall|i: int| 0 <= i < lines@.len() ==> !(#[trigger] lines@[i])@.contains('\n')) ==> {
            &&& lines_of(u.body@) == lines@.map_values(|l: String| l@)
            &&& lines_of(u.body@).len() == records@.len()
        },
{
    let run_id = batch_run_id(records, fresh);
    let key = samples_key(run_id);
    let body = jsonl_body(lines);
    proof {
        let views = lines@.map_values(|l: String| l@);
        if forall|i: int| 0 <= i < lines@.len() ==> !(#[trigger] lines@[i])@.contains('\n') {
            assert forall|i: int| 0 <= i < views.len() implies !(#[trigger] views[i]).contains('\n') by {
                assert(views[i] == lines@[i]@);
            }
            jsonl_lines_round_trip(views);
        }
    }
    let uri = object_uri(settings.endpoint.as_str(), settings.bucket.as_str(), key.as_str());
    ObjectUpload { key, body, uri }
}

/// Where the samples are once uploaded: the object's address, in JSON lines.
pub fn uploaded_location(uri: String) -> (r: SampleResultLocation)
    ensures
        r matches SampleResultLocation::ObjectStore { uri: u, format } && u == uri && format@ == "jsonl"@,
{
    SampleResultLocation::ObjectStore { uri, format: String::from_str("jsonl") }
}

proof fn lemma_scan_concat(a: Seq<char>, b: Seq<char>, cur: Seq<char>, done: Seq<Seq<char>>)
    ensures
        scan_lines(a + b, cur, done) == scan_lines(b, scan_lines(a, cur, done).0, scan_lines(a, cur, done).1),
    decreases a.len(),
{
    if a.len() > 0 {
        assert((a + b)[0] == a[0]);
        assert((a + b).drop_first() =~= a.drop_first() + b);
        if a[0] == '\n' {
            lemma_scan_concat(a.drop_first(), b, Seq::empty(), done.push(cur));
        } else {
            lemma_scan_concat(a.drop_first(), b, cur.push(a[0]), done);
        }
    } else {
        assert(a + b =~= b);
    }
}

proof fn lemma_scan_line(line: Seq<char>, cur: Seq<char>, done: Seq<Seq<char>>)
    requires
        !line.contains('\n'),
    ensures
        scan_lines(line, cur, done) == (cur + line, done),
    decreases line.len(),
{
    if line.len() > 0 {
        assert(line[0] != '\n') by {
            if line[0] == '\n' {
                assert(line.contains('\n'));
            }
        }
        assert(!line.drop_first().contains('\n')) by {
            if line.drop_first().contains('\n') {
                let k = choose|k: int| 0 <= k < line.drop_first().len() && line.drop_first()[k] == '\n';
                assert(line[k + 1] == '\n');
            }
        }
        lemma_scan_line(line.drop_first(), cur.push(line[0]), done);
        assert(cur.push(line[0]) + line.drop_first() =~= cur + line);
    } else {
        assert(cur + line =~= cur);
    }
}

proof fn lemma_scan_newline(cur: Seq<char>, done: Seq<Seq<char>>)
    ensures
        scan_lines(seq!['\n'], cur, done) == (Seq::<char>::empty(), done.push(cur)),
{
    let t = seq!['\n'];
    assert(t.drop_first() =~= Seq::<char>::empty());
    assert(scan_lines(t.drop_first(), Seq::empty(), done.push(cur)) == (Seq::<char>::empty(), done.push(cur)));
}

/// Scanning a whole body completes exactly its lines and leaves nothing
/// pending.
proof fn lemma_scan_body(lines: Seq<Seq<char>>)
    requires
        forall|i: int| 0 <= i < lines.len() ==> !(#[trigger] lines[i]).contains('\n'),
    ensures
        scan_lines(jsonl_text(lines), Seq::empty(), Seq::empty()) == (Seq::<char>::empty(), lines),
    decreases lines.len(),
{
    if lines.len() == 0 {
        assert(lines =~= Seq::<Seq<char>>::empty());
    } else {
        let prefix = lines.drop_last();
        let last = lines.last();
        assert forall|i: int| 0 <= i < prefix.len() implies !(#[trigger] prefix[i]).contains('\n') by {
            assert(prefix[i] == lines[i]);
        }
        assert(!last.contains('\n')) by {
            assert(last == lines[lines.len() - 1]);
        }
        lemma_scan_body(prefix);
        let before = jsonl_text(prefix);
        assert(jsonl_text(lines) == before + last + seq!['\n']);
        assert(before + last + seq!['\n'] =~= before + (last + seq!['\n']));
        lemma_scan_concat(before, last + seq!['\n'], Seq::empty(), Seq::empty());
        lemma_scan_concat(last, seq!['\n'], Seq::empty(), prefix);
        lemma_scan_line(last, Seq::empty(), prefix);
        assert(Seq::<char>::empty() + last =~= last);
        lemma_scan_newline(last, prefix);
        assert(prefix.push(last) =~= lines);
    }
}

/// Reading an uploaded body back line by line gives the encoded records, one
/// line per record and in order, provided that no encoding holds a line
/// break (compact JSON never does).
pub proof fn jsonl_lines_round_trip(lines: Seq<Seq<char>>)
    requires
        forall|i: int| 0 <= i < lines.len() ==> !(#[trigger] lines[i]).contains('\n'),
    ensures
        lines_of(jsonl_text(lines)) == lines,
{
    lemma_scan_body(lines);
}

} // verus!
