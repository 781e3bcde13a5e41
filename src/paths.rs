//! Local storage policy: where a remote file lands, and its in-progress sibling.
use vstd::prelude::*;
use vstd::string::*;
use crate::text::{
    all_digits, basename, ends_with, fields, join, path_basename, push_path_component,
    split_fields, str_all_digits, str_ends_with, strip_leading_slashes, trim_leading_slashes,
};

verus! {

/// How downloaded files are laid out under a base directory.
#[derive(Debug, Clone)]
pub struct LocalFileStorage {
    pub base_path: String,
    /// Nest files under `year/month/day/hour` taken from their names.
    pub organize_by_time: bool,
    /// Mirror the remote path under the base directory verbatim.
    pub keep_original_structure: bool,
    /// Appended to a file's name while it is being transferred.
    pub temp_suffix: String,
}

/// The directory components derived from a remote file name.
#[derive(Debug, Clone)]
pub struct FilenameParts {
    pub year: String,
    pub month: String,
    pub day: String,
    pub hour: String,
}

/// The `(year, month, day, hour)` components of a file name of the form
/// `PREFIX_SATID_YYYYMMDD_HHMM_...`; `None` when the date or time token is
/// missing or is not 8 (resp. 4) digits.
pub open spec fn filename_parts(name: Seq<char>) -> Option<
    (Seq<char>, Seq<char>, Seq<char>, Seq<char>),
> {
    let f = fields(name, '_');
    if f.len() >= 4 && f[2].len() == 8 && all_digits(f[2]) && f[3].len() == 4 && all_digits(
        f[3],
    ) {
        Some((f[2].subrange(0, 4), f[2].subrange(4, 6), f[2].subrange(6, 8), f[3].subrange(0, 2)))
    } else {
        None
    }
}

impl LocalFileStorage {
    /// The final local path of the remote file `remote`.
    pub open spec fn local_path(&self, remote: Seq<char>) -> Seq<char> {
        let name = basename(remote);
        if self.keep_original_structure {
            join(self.base_path@, strip_leading_slashes(remote))
        } else if self.organize_by_time && filename_parts(name) is Some {
            let (y, m, d, h) = filename_parts(name)->0;
            join(join(join(join(join(self.base_path@, y), m), d), h), name)
        } else {
            join(self.base_path@, name)
        }
    }

    /// The temporary path used while `local` is being transferred.
    pub open spec fn temp_path(&self, local: Seq<char>) -> Seq<char> {
        local + self.temp_suffix@
    }

    /// Parses the directory components out of a file name.
    pub fn parse_filename(&self, filename: &str) -> (r: Option<FilenameParts>)
        ensures
            r is Some <==> filename_parts(filename@) is Some,
            r matches Some(p) ==> filename_parts(filename@) == Some(
                (p.year@, p.month@, p.day@, p.hour@),
            ),
    {
        let parts = split_fields(filename, '_');
        if parts.len() >= 4 {
            let date = parts[2];
            let time = parts[3];
            if date.unicode_len() == 8 && str_all_digits(date) && time.unicode_len() == 4
                && str_all_digits(time) {
                return Some(
                    FilenameParts {
                        year: String::from_str(date.substring_char(0, 4)),
                        month: String::from_str(date.substring_char(4, 6)),
                        day: String::from_str(date.substring_char(6, 8)),
                        hour: String::from_str(time.substring_char(0, 2)),
                    },
                );
            }
        }
        None
    }

    /// A storage rooted at `base_path`, organised by time, with the
    /// `.downloading` suffix for files in transfer.
    pub fn new(base_path: &str) -> (r: LocalFileStorage)
        ensures
            r.base_path@ == base_path@,
            r.organize_by_time,
            !r.keep_original_structure,
            r.temp_suffix@ == ".downloading"@,
    {
        LocalFileStorage {
            base_path: String::from_str(base_path),
            organize_by_time: true,
            keep_original_structure: false,
            temp_suffix: String::from_str(".downloading"),
        }
    }

    pub fn with_time_organization(self, organize_by_time: bool) -> (r: LocalFileStorage)
        ensures
            r == (LocalFileStorage { organize_by_time, ..self }),
    {
        LocalFileStorage { organize_by_time, ..self }
    }

    pub fn with_original_structure(self, keep_original_structure: bool) -> (r: LocalFileStorage)
        ensures
            r == (LocalFileStorage { keep_original_structure, ..self }),
    {
        LocalFileStorage { keep_original_structure, ..self }
    }

    pub fn with_temp_suffix(self, suffix: &str) -> (r: LocalFileStorage)
        ensures
            r.base_path == self.base_path,
            r.organize_by_time == self.organize_by_time,
            r.keep_original_structure == self.keep_original_structure,
            r.temp_suffix@ == suffix@,
    {
        LocalFileStorage { temp_suffix: String::from_str(suffix), ..self }
    }

    /// The final local path of the remote file `remote_path`. When the name
    /// does not carry a well-formed date and time, the file goes directly
    /// under the base directory.
    pub fn generate_local_path(&self, remote_path: &str) -> (r: String)
        ensures
            r@ == self.local_path(remote_path@),
    {
        let mut out = self.base_path.clone();
        if self.keep_original_structure {
            push_path_component(&mut out, trim_leading_slashes(remote_path));
            return out;
        }
        let name = path_basename(remote_path);
        if self.organize_by_time {
            if let Some(parts) = self.parse_filename(name) {
                push_path_component(&mut out, parts.year.as_str());
                push_path_component(&mut out, parts.month.as_str());
                push_path_component(&mut out, parts.day.as_str());
                push_path_component(&mut out, parts.hour.as_str());
            }
        }
        push_path_component(&mut out, name);
        out
    }

    /// The temporary sibling of `local_path`: its name with the suffix appended.
    pub fn generate_temp_path(&self, local_path: &str) -> (r: String)
        ensures
            r@ == self.temp_path(local_path@),
    {
        let mut out = String::from_str(local_path);
        out.append(self.temp_suffix.as_str());
        out
    }

    /// Whether a file of this name is an incomplete transfer left behind.
    pub fn is_incomplete_download(&self, file_name: &str) -> (r: bool)
        ensures
            r == ends_with(file_name@, self.temp_suffix@),
    {
        str_ends_with(file_name, self.temp_suffix.as_str())
    }
}

} // verus!
