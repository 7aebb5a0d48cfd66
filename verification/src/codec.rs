use vstd::prelude::*;

use crate::errors::CodecError;

verus! {

// ---------------------------------------------------------------------------
// Names for what the outside codec functions return.
// ---------------------------------------------------------------------------
/// What flate2's gzip decoder recovers from a byte stream: `Some` payload for
/// a stream it accepts, `None` for bytes it rejects. Decompression is a pure
/// function of the input bytes.
pub uninterp spec fn gunzip_of(z: Seq<u8>) -> Option<Seq<u8>>;

/// What tar's reader finds as the first entry of a byte stream: the entry's
/// path and payload, or `None` when the stream has no readable entry.
/// Parsing is a pure function of the input bytes.
pub uninterp spec fn tar_first_of(t: Seq<u8>) -> Option<(Seq<char>, Seq<u8>)>;

/// What tar's reader recovers as the whole entry list of a byte stream, in
/// order, or `None` when the stream does not read back as an archive.
/// Parsing is a pure function of the input bytes.
pub uninterp spec fn tar_entries_of(t: Seq<u8>) -> Option<Seq<(Seq<char>, Seq<u8>)>>;

/// The entries appended so far to a tar builder, in order.
pub uninterp spec fn tar_builder_entries(b: TarSink) -> Seq<(Seq<char>, Seq<u8>)>;

/// The payload of the first entry of a read-back entry list, if any.
pub open spec fn first_payload_of(es: Option<Seq<(Seq<char>, Seq<u8>)>>) -> Option<Seq<u8>> {
    match es {
        Some(list) => if list.len() > 0 {
            Some(list[0].1)
        } else {
            None
        },
        None => None,
    }
}

// ---------------------------------------------------------------------------
// Entry paths accepted by the codec.
// ---------------------------------------------------------------------------
/// A character an archive path may contain: printable ASCII, except the two
/// characters whose reading differs between platform path syntaxes (the
/// backslash separator and the drive-prefix colon).
pub open spec fn path_char(c: char) -> bool {
    ' ' <= c && c <= '~' && c != '\\' && c != ':'
}

/// Whether position `i` of `p` starts a `.` or `..` path component.
pub open spec fn dot_component_at(p: Seq<char>, i: int) -> bool
    recommends
        0 <= i < p.len(),
{
    &&& p[i] == '.'
    &&& (i + 1 == p.len() || p[i + 1] == '/' || (p[i + 1] == '.' && (i + 2 == p.len() || p[i + 2]
        == '/')))
}

/// A simple relative path: one a tar header stores byte for byte. At most
/// 100 printable-ASCII characters — the plain header's path field — not
/// absolute, not ending in a separator, with no empty and no `.` or `..`
/// component. What falls outside is exactly what tar would reject or
/// silently rewrite.
pub open spec fn simple_path(p: Seq<char>) -> bool {
    &&& 1 <= p.len() <= 100
    &&& (forall|i: int| 0 <= i < p.len() ==> path_char(#[trigger] p[i]))
    &&& p[0] != '/'
    &&& p[p.len() - 1] != '/'
    &&& (forall|i: int|
        #![trigger p[i], p[i + 1]]
        0 <= i && i + 1 < p.len() ==> !(p[i] == '/' && p[i + 1] == '/'))
    &&& (forall|i: int|
        #![trigger dot_component_at(p, i)]
        0 <= i < p.len() && (i == 0 || p[i - 1] == '/') ==> !dot_component_at(p, i))
}

/// Whether `p` holds a simple relative path.
#[verifier::rlimit(50)]
pub fn is_simple_path(p: &String) -> (r: bool)
    ensures
        r == simple_path(p@),
{
    let s = p.as_str();
    let n = s.unicode_len();
    if n < 1 || n > 100 {
        return false;
    }
    if s.get_char(0) == '/' || s.get_char(n - 1) == '/' {
        return false;
    }
    let mut prev: char = '/';
    for i in 0..n
        invariant
            s@ == p@,
            n == p@.len(),
            1 <= n <= 100,
            p@[0] != '/',
            p@[n - 1] != '/',
            prev == if i == 0 {
                '/'
            } else {
                p@[i - 1]
            },
            forall|j: int| 0 <= j < i ==> path_char(#[trigger] p@[j]),
            forall|j: int|
                #![trigger p@[j], p@[j + 1]]
                0 <= j && j + 1 < i ==> !(p@[j] == '/' && p@[j + 1] == '/'),
            forall|j: int|
                #![trigger dot_component_at(p@, j)]
                0 <= j < i && (j == 0 || p@[j - 1] == '/') ==> !dot_component_at(p@, j),
    {
        let c = s.get_char(i);
        if !(' ' <= c && c <= '~') || c == '\\' || c == ':' {
            return false;
        }
        if prev == '/' && c == '/' {
            proof {
                assert(i > 0);
                let j: int = i as int - 1;
                assert(!simple_path(p@)) by {
                    assert(p@[j] == '/' && p@[j + 1] == '/');
                }
            }
            return false;
        }
        if (i == 0 || prev == '/') && c == '.' {
            if i + 1 == n {
                proof {
                    assert(dot_component_at(p@, i as int));
                }
                return false;
            }
            let c2 = s.get_char(i + 1);
            if c2 == '/' {
                proof {
                    assert(dot_component_at(p@, i as int));
                }
                return false;
            }
            if c2 == '.' {
                if i + 2 == n {
                    proof {
                        assert(dot_component_at(p@, i as int));
                    }
                    return false;
                }
                let c3 = s.get_char(i + 2);
                if c3 == '/' {
                    proof {
                        assert(dot_component_at(p@, i as int));
                    }
                    return false;
                }
            }
        }
        proof {
            if i == 0 || p@[i as int - 1] == '/' {
                assert(!dot_component_at(p@, i as int));
            }
        }
        prev = c;
    }
    true
}

// ---------------------------------------------------------------------------
// Trusted wrappers around the outside codec calls.
// ---------------------------------------------------------------------------
/// A tar archive being built over an in-memory byte sink. Opaque to the
/// verifier; its contents are tracked through `tar_builder_entries`.
#[verifier::external_body]
pub struct TarSink {
    inner: tar::Builder<Vec<u8>>,
}

/// Relies on `tar::Builder::new`: a fresh builder over an empty byte sink
/// holds no entries.
#[verifier::external_body]
fn tar_builder_new() -> (b: TarSink)
    ensures
        tar_builder_entries(b) == Seq::<(Seq<char>, Seq<u8>)>::empty(),
{
    TarSink { inner: tar::Builder::new(Vec::new()) }
}

/// Relies on `tar::Builder::append_data` (with `tar::Header::new_gnu` and
/// `Header::set_size`): appends one regular-file entry with the given path
/// and payload. A simple relative path fits the plain header's path field,
/// is stored in it byte for byte — tar rewrites nothing in it — and a `Vec`
/// sink cannot fail, so the call returns; other paths tar may reject or
/// rewrite, and stay out by the precondition.
#[verifier::external_body]
fn tar_builder_append(b: &mut TarSink, path: &String, data: &Vec<u8>)
    requires
        simple_path(path@),
    ensures
        tar_builder_entries(*final(b)) == tar_builder_entries(*old(b)).push((path@, data@)),
{
    let mut header = tar::Header::new_gnu();
    header.set_size(data.len() as u64);
    b.inner.append_data(&mut header, path.as_str(), data.as_slice()).unwrap();
}

/// Relies on `tar::Builder::into_inner` closing the archive, and on tar's
/// reader recovering from the finished bytes the entries that were appended:
/// exactly them, in order — none when nothing was appended.
#[verifier::external_body]
fn tar_builder_finish(b: TarSink) -> (r: Vec<u8>)
    ensures
        tar_entries_of(r@) == Some(tar_builder_entries(b)),
{
    b.inner.into_inner().unwrap()
}

/// Relies on `tar::Archive::entries` and `tar::Entry::read_to_end`: reads the
/// payload of the stream's first entry, failing exactly when the stream has
/// no readable entry. In particular, on a stream that reads back whole as a
/// non-empty archive it returns the first entry's payload.
#[verifier::external_body]
fn tar_read_first(data: &Vec<u8>) -> (r: Result<Vec<u8>, CodecError>)
    ensures
        r is Ok <==> tar_first_of(data@) is Some,
        r matches Ok(o) ==> tar_first_of(data@) matches Some(pb) && o@ == pb.1,
        r is Err ==> first_payload_of(tar_entries_of(data@)) is None,
        r matches Ok(o) ==> (first_payload_of(tar_entries_of(data@)) is Some ==> first_payload_of(
            tar_entries_of(data@),
        )->Some_0 == o@),
{
    let mut archive = tar::Archive::new(data.as_slice());
    match archive.entries() {
        Ok(mut entries) => match entries.next() {
            Some(Ok(mut entry)) => {
                let mut out: Vec<u8> = Vec::new();
                match std::io::Read::read_to_end(&mut entry, &mut out) {
                    Ok(_) => Ok(out),
                    Err(_) => Err(CodecError::NotFound),
                }
            },
            _ => Err(CodecError::NotFound),
        },
        Err(_) => Err(CodecError::NotFound),
    }
}

/// Relies on `flate2::write::GzEncoder`: gzip-compresses the bytes into a
/// stream that flate2's own decoder recovers the input from. Writing into a
/// `Vec` sink cannot fail.
#[verifier::external_body]
fn gzip_compress(data: &Vec<u8>) -> (r: Vec<u8>)
    ensures
        gunzip_of(r@) == Some(data@),
{
    let mut enc = flate2::write::GzEncoder::new(Vec::new(), flate2::Compression::default());
    std::io::Write::write_all(&mut enc, data.as_slice()).unwrap();
    enc.finish().unwrap()
}

/// Relies on `flate2::read::GzDecoder`: decompresses a gzip stream, failing
/// exactly on bytes it does not accept as one.
#[verifier::external_body]
fn gzip_decompress(data: &Vec<u8>) -> (r: Result<Vec<u8>, CodecError>)
    ensures
        r is Ok <==> gunzip_of(data@) is Some,
        r matches Ok(v) ==> gunzip_of(data@) matches Some(o) && v@ == o,
{
    let mut dec = flate2::read::GzDecoder::new(data.as_slice());
    let mut out: Vec<u8> = Vec::new();
    match std::io::Read::read_to_end(&mut dec, &mut out) {
        Ok(_) => Ok(out),
        Err(_) => Err(CodecError::NotFound),
    }
}

// ---------------------------------------------------------------------------
// The archive codec.
// ---------------------------------------------------------------------------
/// A (path, payload) pair: the unit the codec packs and unpacks.
pub struct ArchiveEntry {
    pub path: String,
    pub payload: Vec<u8>,
}

impl View for ArchiveEntry {
    type V = (Seq<char>, Seq<u8>);

    open spec fn view(&self) -> (Seq<char>, Seq<u8>) {
        (self.path@, self.payload@)
    }
}

impl DeepView for ArchiveEntry {
    type V = (Seq<char>, Seq<u8>);

    open spec fn deep_view(&self) -> (Seq<char>, Seq<u8>) {
        self.view()
    }
}

impl Clone for ArchiveEntry {
    fn clone(&self) -> (res: Self)
        ensures
            res@ == self@,
    {
        ArchiveEntry { path: self.path.clone(), payload: self.payload.clone() }
    }
}

/// Whether `arch` is a gzip-compressed tar stream that reads back as exactly
/// the entry list `entries`, in order.
pub open spec fn packed_archive(arch: Seq<u8>, entries: Seq<(Seq<char>, Seq<u8>)>) -> bool {
    exists|t: Seq<u8>|
        #[trigger] gunzip_of(arch) == Some(t) && tar_entries_of(t) == Some(entries)
}

/// Packs the entries into a gzip-compressed tar archive that reads back as
/// exactly those entries, in order. Succeeds exactly when every entry path
/// is a simple relative path.
pub fn pack(entries: &Vec<ArchiveEntry>) -> (r: Result<Vec<u8>, CodecError>)
    ensures
        r is Ok <==> (forall|i: int|
            0 <= i < entries.deep_view().len() ==> simple_path(#[trigger] entries.deep_view()[i].0)),
        r matches Ok(a) ==> packed_archive(a@, entries.deep_view()),
        r matches Err(e) ==> e == CodecError::InvalidPath,
{
    let n = entries.len();
    for i in 0..n
        invariant
            n == entries.len(),
            forall|j: int| 0 <= j < i ==> simple_path(#[trigger] entries.deep_view()[j].0),
    {
        if !is_simple_path(&entries[i].path) {
            proof {
                assert(!simple_path(entries.deep_view()[i as int].0));
            }
            return Err(CodecError::InvalidPath);
        }
    }
    let mut builder = tar_builder_new();
    for i in 0..n
        invariant
            n == entries.len(),
            forall|j: int| 0 <= j < n ==> simple_path(#[trigger] entries.deep_view()[j].0),
            tar_builder_entries(builder) =~= entries.deep_view().take(i as int),
    {
        proof {
            assert(simple_path(entries.deep_view()[i as int].0));
            assert(entries.deep_view()[i as int].0 == entries[i as int].path@);
        }
        tar_builder_append(&mut builder, &entries[i].path, &entries[i].payload);
        proof {
            assert(tar_builder_entries(builder) =~= entries.deep_view().take(i + 1));
        }
    }
    proof {
        assert(entries.deep_view().take(n as int) =~= entries.deep_view());
    }
    let tar_bytes = tar_builder_finish(builder);
    Ok(gzip_compress(&tar_bytes))
}

/// Unpacks the first entry's payload from a gzip-compressed tar archive.
/// Fails with `NotFound` exactly when the bytes are not such an archive or
/// the archive holds no entry; in particular, it recovers the first payload
/// of anything `pack` produced.
pub fn unpack_single(data: &Vec<u8>) -> (r: Result<Vec<u8>, CodecError>)
    ensures
        forall|es: Seq<(Seq<char>, Seq<u8>)>|
            #[trigger] packed_archive(data@, es) && es.len() > 0 ==> (r matches Ok(o) && o@
                == es[0].1),
        r is Err <==> (match gunzip_of(data@) {
            Some(t) => tar_first_of(t) is None,
            None => true,
        }),
        r matches Err(e) ==> e == CodecError::NotFound,
{
    match gzip_decompress(data) {
        Ok(t) => match tar_read_first(&t) {
            Ok(o) => Ok(o),
            Err(_) => Err(CodecError::NotFound),
        },
        Err(_) => Err(CodecError::NotFound),
    }
}

/// Law: the codec round-trips. Unpacking an archive packed from a non-empty
/// entry list yields the first entry's payload unchanged, whatever bytes the
/// payload holds.
pub fn packed_round_trip(entries: &Vec<ArchiveEntry>) -> (r: Vec<u8>)
    requires
        entries.deep_view().len() > 0,
        forall|i: int|
            0 <= i < entries.deep_view().len() ==> simple_path(#[trigger] entries.deep_view()[i].0),
    ensures
        r@ == entries.deep_view()[0].1,
{
    let archive = pack(entries).unwrap();
    unpack_single(&archive).unwrap()
}

} // verus!
