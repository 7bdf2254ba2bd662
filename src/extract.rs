//! What a raw copy reads and writes: the volume and directories of the
//! source path, the file and data stream it names, and the output file.
use crate::error::GcookieError;
use vstd::prelude::*;

verus! {

/// Whether `i` is the first `:` of a text.
pub open spec fn is_first_colon(s: Seq<char>, i: int) -> bool {
    &&& 0 <= i < s.len()
    &&& s[i] == ':'
    &&& forall|j: int| 0 <= j < i ==> s[j] != ':'
}

/// Whether a text has no `:`.
pub open spec fn has_no_colon(s: Seq<char>) -> bool {
    forall|j: int| 0 <= j < s.len() ==> s[j] != ':'
}

/// The output file name: the file's name for its default stream, else
/// `file_stream`.
pub open spec fn output_name_of(file: Seq<char>, stream: Seq<char>) -> Seq<char> {
    if stream.len() == 0 {
        file
    } else {
        file + seq!['_'] + stream
    }
}

/// A file and one of its data streams; an empty stream name is the
/// default, unnamed stream.
pub struct StreamRequest {
    pub file_name: String,
    pub stream_name: String,
}

impl StreamRequest {
    /// Splits `file:stream` at its first `:`; with no `:` the whole argument
    /// is the file and the default stream is meant.
    pub fn parse(arg: &str) -> (r: StreamRequest)
        ensures
            forall|i: int|
                is_first_colon(arg@, i) ==> r.file_name@ == arg@.subrange(0, i) && r.stream_name@
                    == arg@.subrange(i + 1, arg@.len() as int),
            has_no_colon(arg@) ==> r.file_name@ == arg@ && r.stream_name@.len() == 0,
    {
        let n = arg.unicode_len();
        let mut i: usize = 0;
        while i < n
            invariant
                n == arg@.len(),
                i <= n,
                forall|j: int| 0 <= j < i ==> arg@[j] != ':',
            decreases n - i,
        {
            if arg.get_char(i) == ':' {
                let file_name = arg.substring_char(0, i).to_owned();
                let stream_name = arg.substring_char(i + 1, n).to_owned();
                proof {
                    assert forall|k: int| is_first_colon(arg@, k) implies k == i by {
                        if k < i {
                        } else if k > i {
                            assert(arg@[i as int] == ':');
                        }
                    }
                }
                return StreamRequest { file_name, stream_name };
            }
            i = i + 1;
        }
        StreamRequest { file_name: arg.to_owned(), stream_name: String::new() }
    }

    /// The name of the output file.
    pub fn output_name(&self) -> (r: String)
        ensures
            r@ == output_name_of(self.file_name@, self.stream_name@),
    {
        if self.stream_name.unicode_len() == 0 {
            self.file_name.clone()
        } else {
            let sep = "_";
            proof {
                reveal_strlit("_");
            }
            let mut out = self.file_name.clone();
            out.append(sep);
            out.append(self.stream_name.as_str());
            out
        }
    }
}

/// The checks before any byte is written: the stream must exist, else
/// nothing is created; the output must not exist, as it is never
/// overwritten.
pub fn check_extract(has_stream: bool, destination_exists: bool) -> (r: Result<(), GcookieError>)
    ensures
        !has_stream ==> r == Err::<(), GcookieError>(GcookieError::AttributeNotFound),
        has_stream && destination_exists ==> r == Err::<(), GcookieError>(GcookieError::DestinationConflict),
        has_stream && !destination_exists ==> r is Ok,
{
    if !has_stream {
        Err(GcookieError::AttributeNotFound)
    } else if destination_exists {
        Err(GcookieError::DestinationConflict)
    } else {
        Ok(())
    }
}

/// Whether a character separates path components.
pub open spec fn is_separator(c: char) -> bool {
    c == '/' || c == '\\'
}

/// The components that end within the first `i` characters, and where the
/// component after them starts.
pub open spec fn scan_components(s: Seq<char>, i: nat) -> (Seq<Seq<char>>, nat)
    decreases i,
{
    if i == 0 {
        (Seq::empty(), 0)
    } else {
        let (done, start) = scan_components(s, (i - 1) as nat);
        if is_separator(s[i - 1]) {
            (
                if start < i - 1 {
                    done.push(s.subrange(start as int, i - 1))
                } else {
                    done
                },
                i,
            )
        } else {
            (done, start)
        }
    }
}

/// The non-empty components of a path, split at `/` and `\`.
pub open spec fn path_components(s: Seq<char>) -> Seq<Seq<char>> {
    let (done, start) = scan_components(s, s.len());
    if start < s.len() {
        done.push(s.subrange(start as int, s.len() as int))
    } else {
        done
    }
}

/// The device-namespace prefix that opens a volume by its designator.
pub open spec fn device_prefix() -> Seq<char> {
    seq!['\\', '\\', '.', '\\']
}

/// A source path taken apart: the raw volume to open, the directories to
/// walk, and the file to extract.
pub struct VolumePath {
    pub device: String,
    pub directories: Vec<String>,
    pub file: String,
}

/// The non-empty components of a path.
fn split_components(path: &str) -> (r: Vec<String>)
    ensures
        r@.map_values(|c: String| c@) == path_components(path@),
{
    let n = path.unicode_len();
    let mut parts: Vec<String> = Vec::new();
    let mut start: usize = 0;
    let mut i: usize = 0;
    while i < n
        invariant
            n == path@.len(),
            i <= n,
            start <= i,
            parts@.map_values(|c: String| c@) == scan_components(path@, i as nat).0,
            start == scan_components(path@, i as nat).1,
        decreases n - i,
    {
        let c = path.get_char(i);
        if c == '/' || c == '\\' {
            if start < i {
                let part = path.substring_char(start, i).to_owned();
                let ghost before = parts@.map_values(|c: String| c@);
                parts.push(part);
                assert(parts@.map_values(|c: String| c@) =~= before.push(path@.subrange(start as int, i as int)));
            }
            start = i + 1;
        }
        i = i + 1;
    }
    if start < n {
        let part = path.substring_char(start, n).to_owned();
        let ghost before = parts@.map_values(|c: String| c@);
        parts.push(part);
        assert(parts@.map_values(|c: String| c@) =~= before.push(path@.subrange(start as int, n as int)));
    }
    parts
}

impl VolumePath {
    /// Takes a source path apart: its first component names the volume,
    /// opened through the device namespace; its last names the file; those
    /// between are directories. A path of fewer than two components names
    /// no file on a volume.
    pub fn parse(path: &str) -> (r: Result<VolumePath, GcookieError>)
        ensures
            path_components(path@).len() < 2 ==> r == Err::<VolumePath, GcookieError>(
                GcookieError::PathResolutionFailed,
            ),
            path_components(path@).len() >= 2 ==> (r matches Ok(v) && {
                let c = path_components(path@);
                &&& v.device@ == device_prefix() + c[0]
                &&& v.directories@.map_values(|d: String| d@) == c.subrange(1, c.len() - 1)
                &&& v.file@ == c.last()
            }),
    {
        let mut parts = split_components(path);
        let ghost c = path_components(path@);
        assert(parts@.len() == c.len());
        if parts.len() < 2 {
            return Err(GcookieError::PathResolutionFailed);
        }
        let file = parts.pop().unwrap();
        assert(file@ == c.last());
        let volume = parts.remove(0);
        assert(volume@ == c[0]);
        let prefix = "\\\\.\\";
        proof {
            reveal_strlit("\\\\.\\");
        }
        let device = String::from_str(prefix).concat(volume.as_str());
        assert(parts@.map_values(|d: String| d@) =~= c.subrange(1, c.len() - 1));
        Ok(VolumePath { device, directories: parts, file })
    }
}

} // verus!
