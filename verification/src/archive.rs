//! Downloaded archives: telling how they are compressed, decompressing them
//! and listing what they hold.

use vstd::prelude::*;
use vstd::slice::*;
use vstd::string::*;
use crate::text::same_text;

verus! {

/// One entry of an archive: its path in the archive and its size in bytes.
#[derive(PartialEq, Eq, Debug)]
pub struct TarInfo {
    pub name: String,
    pub size: u64,
}

/// What a `TarInfo` says, as plain values.
pub struct TarInfoView {
    pub name: Seq<char>,
    pub size: u64,
}

impl View for TarInfo {
    type V = TarInfoView;

    open spec fn view(&self) -> TarInfoView {
        TarInfoView { name: self.name@, size: self.size }
    }
}

/// How a file is compressed, as far as this system can undo it.
#[derive(Clone, Copy, PartialEq, Eq, Debug, Structural)]
pub enum FileType {
    Gzip,
    Bzip2,
    /// Anything else: taken to be plain.
    Unknown,
}

/// Why an archive could not be read.
#[derive(Debug)]
pub enum ArchiveError {
    /// The gzip stream is corrupt.
    Gzip(std::io::Error),
    /// The bzip2 stream is corrupt.
    Bzip2(std::io::Error),
    /// The tar stream is corrupt.
    Tar(std::io::Error),
}

/// How many bytes from the start of a file are looked at to tell its type.
pub const SNIFFED_BYTES: usize = 8192;

#[verifier::external_type_specification]
#[verifier::external_body]
pub struct ExIoError(std::io::Error);

/// The MIME type that `infer` finds for content, if it knows the content.
pub uninterp spec fn sniffed_mime(content: Seq<u8>) -> Option<Seq<char>>;

/// `infer::get`, and `Type::mime_type` of what it finds: the crate looks for
/// the signatures it knows in `content` and gives the first type that
/// matches. The result depends on the bytes alone.
#[verifier::external_body]
fn sniff(content: &[u8]) -> (mime: Option<String>)
    ensures
        mime matches Some(text) ==> sniffed_mime(content@) == Some(text@),
        mime is None ==> sniffed_mime(content@) is None,
{
    infer::get(content).map(|kind| kind.mime_type().to_string())
}

/// The compression that a MIME type stands for.
pub open spec fn file_type_of(mime: Option<Seq<char>>) -> FileType {
    match mime {
        Some(text) => if text == "application/gzip"@ || text == "application/x-gzip"@ {
            FileType::Gzip
        } else if text == "application/bzip2"@ || text == "application/x-bzip2"@ {
            FileType::Bzip2
        } else {
            FileType::Unknown
        },
        None => FileType::Unknown,
    }
}

/// The compression that a MIME type stands for; none for a type that is not
/// known.
pub fn classify(mime: Option<&str>) -> (kind: FileType)
    ensures
        kind == file_type_of(
            match mime {
                Some(text) => Some(text@),
                None => None,
            },
        ),
{
    match mime {
        None => FileType::Unknown,
        Some(text) => {
            if same_text(text, "application/gzip") || same_text(text, "application/x-gzip") {
                FileType::Gzip
            } else if same_text(text, "application/bzip2") || same_text(
                text,
                "application/x-bzip2",
            ) {
                FileType::Bzip2
            } else {
                FileType::Unknown
            }
        },
    }
}

/// The part of a file that is looked at to tell its type.
pub open spec fn sniffed_part(content: Seq<u8>) -> Seq<u8> {
    if content.len() <= SNIFFED_BYTES {
        content
    } else {
        content.subrange(0, SNIFFED_BYTES as int)
    }
}

/// The type of a file with this content, told from its first bytes and not
/// from its name.
pub open spec fn file_type(content: Seq<u8>) -> FileType {
    file_type_of(sniffed_mime(sniffed_part(content)))
}

/// Tells from the first bytes of `content` how it is compressed.
pub fn get_file_type(content: &[u8]) -> (kind: FileType)
    ensures
        kind == file_type(content@),
{
    let head = if content.len() <= SNIFFED_BYTES {
        content
    } else {
        slice_subrange(content, 0, SNIFFED_BYTES)
    };
    match sniff(head) {
        None => classify(None),
        Some(text) => classify(Some(text.as_str())),
    }
}

/// The plain bytes of a gzip stream; none for a stream that is corrupt.
pub uninterp spec fn gunzipped(source: Seq<u8>) -> Option<Seq<u8>>;

/// `flate2::bufread::GzDecoder` on the bytes, read to its end: the bytes of
/// the first member of the stream, or the error at which decoding stopped.
/// The result depends on the bytes alone.
#[verifier::external_body]
fn gunzip(source: &[u8]) -> (r: Result<Vec<u8>, std::io::Error>)
    ensures
        r matches Ok(plain) ==> gunzipped(source@) == Some(plain@),
        r is Err ==> gunzipped(source@) is None,
{
    let mut plain = Vec::new();
    let mut decoder = flate2::bufread::GzDecoder::new(source);
    std::io::copy(&mut decoder, &mut plain)?;
    Ok(plain)
}

/// The plain bytes of a bzip2 stream; none for a stream that is corrupt.
pub uninterp spec fn bunzipped(source: Seq<u8>) -> Option<Seq<u8>>;

/// `bzip2::bufread::BzDecoder` on the bytes, read to its end: the bytes of
/// the first stream, or the error at which decoding stopped. The result
/// depends on the bytes alone.
#[verifier::external_body]
fn bunzip2(source: &[u8]) -> (r: Result<Vec<u8>, std::io::Error>)
    ensures
        r matches Ok(plain) ==> bunzipped(source@) == Some(plain@),
        r is Err ==> bunzipped(source@) is None,
{
    let mut plain = Vec::new();
    let mut decoder = bzip2::bufread::BzDecoder::new(source);
    std::io::copy(&mut decoder, &mut plain)?;
    Ok(plain)
}

/// What decompressing a file with this content gives: the plain bytes of a
/// gzip or bzip2 stream, nothing for one that is corrupt, and the content
/// itself where it is neither.
pub open spec fn decompressed(source: Seq<u8>) -> Option<Seq<u8>> {
    match file_type(source) {
        FileType::Gzip => gunzipped(source),
        FileType::Bzip2 => bunzipped(source),
        FileType::Unknown => Some(source),
    }
}

/// Decompresses a gzip or bzip2 file. Content of any other type is handed
/// back as it is.
pub fn decompress_file(source: &[u8]) -> (r: Result<Vec<u8>, ArchiveError>)
    ensures
        match r {
            Ok(plain) => decompressed(source@) == Some(plain@),
            Err(ArchiveError::Gzip(_)) => file_type(source@) == FileType::Gzip && decompressed(
                source@,
            ) is None,
            Err(ArchiveError::Bzip2(_)) => file_type(source@) == FileType::Bzip2 && decompressed(
                source@,
            ) is None,
            Err(ArchiveError::Tar(_)) => false,
        },
{
    match get_file_type(source) {
        FileType::Gzip => match gunzip(source) {
            Ok(plain) => Ok(plain),
            Err(e) => Err(ArchiveError::Gzip(e)),
        },
        FileType::Bzip2 => match bunzip2(source) {
            Ok(plain) => Ok(plain),
            Err(e) => Err(ArchiveError::Bzip2(e)),
        },
        FileType::Unknown => Ok(slice_to_vec(source)),
    }
}

/// The views of some entries, in order.
pub open spec fn entry_views(entries: Seq<TarInfo>) -> Seq<TarInfoView> {
    entries.map_values(|entry: TarInfo| entry@)
}

/// The entries of a tar stream, in the order in which they are stored; none
/// for a stream that is corrupt.
pub uninterp spec fn tar_entries(archive: Seq<u8>) -> Option<Seq<TarInfoView>>;

/// `tar::Archive::entries` on the bytes, and of each entry's header
/// `Header::path` and `Header::size`. It fails where the crate fails on the
/// stream or on a header, and on a path that is not UTF-8. The result depends
/// on the bytes alone.
#[verifier::external_body]
fn list_entries(archive: &[u8]) -> (r: Result<Vec<TarInfo>, std::io::Error>)
    ensures
        r matches Ok(entries) ==> tar_entries(archive@) == Some(entry_views(entries@)),
        r is Err ==> tar_entries(archive@) is None,
{
    let mut archive = tar::Archive::new(archive);
    let mut entries = Vec::new();
    for entry in archive.entries()? {
        let file = entry?;
        let path = file.header().path()?;
        let name = path.to_str().ok_or(std::io::ErrorKind::InvalidData)?.to_owned();
        entries.push(TarInfo { name, size: file.header().size()? });
    }
    Ok(entries)
}

/// Lists the entries of a tar stream without unpacking it.
pub fn get_tar_infos(archive: &[u8]) -> (r: Result<Vec<TarInfo>, ArchiveError>)
    ensures
        match r {
            Ok(entries) => tar_entries(archive@) == Some(entry_views(entries@)),
            Err(e) => e is Tar && tar_entries(archive@) is None,
        },
{
    match list_entries(archive) {
        Ok(entries) => Ok(entries),
        Err(e) => Err(ArchiveError::Tar(e)),
    }
}

} // verus!
