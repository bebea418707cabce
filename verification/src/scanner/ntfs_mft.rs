use vstd::prelude::*;
use vstd::string::StringExecFns;
use crate::model::file_record::{FileRecord, Timestamp, attrs_reparse, attrs_cloud};
use crate::scanner::index::ScanIndex;
use crate::text::{chars_of, push_char};

verus! {

/// Builds a scan index from a volume's Master File Table.
pub struct NtfsMftScanner;

/// The standard-information attribute of an MFT file: its times (when they
/// convert to a calendar time) and its attribute bits.
pub struct MftStandardInfo {
    pub created_at: Option<Timestamp>,
    pub modified_at: Option<Timestamp>,
    pub file_attributes: u32,
}

/// One attribute of an MFT file, as far as the scan reads it.
pub enum MftAttribute {
    /// A standard-information attribute; `None` when its value could not be read.
    StandardInformation(Option<MftStandardInfo>),
    /// A data attribute: whether it is the unnamed (default) stream, and the
    /// size it records (the resident length, or the data size of the first
    /// extent of a non-resident value), when it records one.
    Data { unnamed: bool, value_size: Option<u64> },
    /// Any other attribute.
    Other,
}

/// One file of the MFT: its number, its best name with the parent's record
/// number (when it has a name), whether it is a directory, the attribute bits of
/// its name entry, and its attributes over all its records.
pub struct MftFile {
    pub number: u64,
    pub best_name: Option<(String, u64)>,
    pub is_dir: bool,
    pub name_attributes: u32,
    pub attributes: Vec<MftAttribute>,
}

/// What the scan gathers from a file's attributes.
pub struct MftSummary {
    pub created_at: Option<Timestamp>,
    pub modified_at: Option<Timestamp>,
    pub size_bytes: u64,
    pub attributes: u32,
}

/// The effect of one attribute: a readable standard information sets both
/// times and the attribute bits; an unnamed data stream with a size sets the size.
pub open spec fn mft_step(s: MftSummary, a: MftAttribute) -> MftSummary {
    match a {
        MftAttribute::StandardInformation(Some(si)) => MftSummary {
            created_at: si.created_at,
            modified_at: si.modified_at,
            attributes: si.file_attributes,
            ..s
        },
        MftAttribute::Data { unnamed: true, value_size: Some(n) } => MftSummary { size_bytes: n, ..s },
        _ => s,
    }
}

/// The attributes applied in order, starting from `init`.
pub open spec fn mft_fold(init: MftSummary, attrs: Seq<MftAttribute>) -> MftSummary
    decreases attrs.len(),
{
    if attrs.len() == 0 {
        init
    } else {
        mft_step(mft_fold(init, attrs.drop_last()), attrs.last())
    }
}

/// The record of an MFT file with the given name, parent and path text.
pub open spec fn mft_record(f: MftFile, name: String, parent: u64, path: String) -> FileRecord {
    let s = mft_fold(
        MftSummary { created_at: None, modified_at: None, size_bytes: 0, attributes: f.name_attributes },
        f.attributes@,
    );
    FileRecord {
        id: f.number,
        parent_id: parent,
        name,
        path,
        is_dir: f.is_dir,
        size_bytes: s.size_bytes,
        modified_at: s.modified_at,
        created_at: s.created_at,
        attributes: s.attributes,
        is_reparse_point: attrs_reparse(s.attributes),
        is_cloud_placeholder: attrs_cloud(s.attributes),
        hard_link_count: 1,
    }
}

/// The volume device path for a drive: "X:..." becomes "\\.\X:" when the
/// drive letter is a single ASCII character; anything else is kept as it is.
pub open spec fn volume_path_text(p: Seq<char>) -> Seq<char> {
    if p.len() >= 2 && (p[0] as u32) < 128 && p[1] == ':' {
        seq!['\\', '\\', '.', '\\', p[0], p[1]]
    } else {
        p
    }
}

impl Default for NtfsMftScanner {
    fn default() -> (r: Self) {
        Self::new()
    }
}

impl NtfsMftScanner {
    /// An MFT scanner.
    pub fn new() -> (r: Self) {
        NtfsMftScanner
    }

    /// The device path to open for a drive path.
    pub fn format_volume_path(path: &str) -> (r: String)
        ensures
            r@ == volume_path_text(path@),
    {
        let cs = chars_of(path);
        if cs.len() >= 2 && (cs[0] as u32) < 128 && cs[1] == ':' {
            let mut out = String::new();
            push_char(&mut out, '\\');
            push_char(&mut out, '\\');
            push_char(&mut out, '.');
            push_char(&mut out, '\\');
            push_char(&mut out, cs[0]);
            push_char(&mut out, cs[1]);
            assert(out@ =~= volume_path_text(path@));
            out
        } else {
            path.to_string()
        }
    }

    /// Gathers the times, size and attribute bits from a file's attributes.
    pub fn summarize(name_attributes: u32, attrs: &Vec<MftAttribute>) -> (r: MftSummary)
        ensures
            r == mft_fold(
                MftSummary { created_at: None, modified_at: None, size_bytes: 0, attributes: name_attributes },
                attrs@,
            ),
    {
        let ghost init = MftSummary {
            created_at: None,
            modified_at: None,
            size_bytes: 0,
            attributes: name_attributes,
        };
        let mut created_at: Option<Timestamp> = None;
        let mut modified_at: Option<Timestamp> = None;
        let mut size_bytes: u64 = 0;
        let mut attributes: u32 = name_attributes;
        let mut i: usize = 0;
        while i < attrs.len()
            invariant
                i <= attrs.len(),
                (MftSummary { created_at, modified_at, size_bytes, attributes }) == mft_fold(
                    init,
                    attrs@.take(i as int),
                ),
            decreases attrs.len() - i,
        {
            assert(attrs@.take(i + 1).drop_last() =~= attrs@.take(i as int));
            match &attrs[i] {
                MftAttribute::StandardInformation(Some(si)) => {
                    created_at = si.created_at;
                    modified_at = si.modified_at;
                    attributes = si.file_attributes;
                },
                MftAttribute::Data { unnamed, value_size } => {
                    if *unnamed {
                        match value_size {
                            Some(n) => {
                                size_bytes = *n;
                            },
                            None => {},
                        }
                    }
                },
                _ => {},
            }
            i = i + 1;
        }
        assert(attrs@.take(attrs.len() as int) =~= attrs@);
        MftSummary { created_at, modified_at, size_bytes, attributes }
    }

    /// Adds one MFT file to the index with an empty path (resolved from the
    /// parent chain when needed); a file without a name is skipped.
    pub fn add_file(&self, index: &mut ScanIndex, file: MftFile)
        requires
            old(index).total_files_scanned < usize::MAX,
        ensures
            match file.best_name {
                Some(bn) => exists|path: String|
                    path@.len() == 0 && final(index)@ == old(index)@.with_record_inserted(
                        #[trigger] mft_record(file, bn.0, bn.1, path),
                    ),
                None => final(index)@ == old(index)@,
            },
    {
        let ghost f = file;
        let (name, parent) = match file.best_name {
            Some(bn) => bn,
            None => {
                return ;
            },
        };
        let s = Self::summarize(file.name_attributes, &file.attributes);
        let record = FileRecord::new(
            file.number,
            parent,
            name,
            String::new(),
            file.is_dir,
            s.size_bytes,
            s.modified_at,
            s.created_at,
            s.attributes,
        );
        let ghost path = record.path;
        let ghost bn = f.best_name.unwrap();
        assert(record == mft_record(f, bn.0, bn.1, path));
        index.insert_record(record);
    }
}

} // verus!
