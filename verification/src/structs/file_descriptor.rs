//! The safe form of one attachment record, and its consolidation.
//!
//! An attachment carries an absolute source path and, optionally, the file
//! name it should be presented under. Consolidation copies the file into a
//! content-addressed subfolder of a temp root so that the name on disk
//! matches the intended one; the copying itself is outside work, so the
//! functions here take its outcomes (the content that was read, whether
//! the copy went through) as plain values and are verified for every
//! outcome.

use crate::environment::{fallback_subdir_chars, fallback_tmp_subdir_path,
    make_subfolder_name_from_content, sha256_of, sha_head_chars};
use crate::file_path::{file_name_chars, join_chars, path_file_name, path_join, FilePath};
use vstd::prelude::*;

verus! {

/// The copied-out attachment type record: an X.400 type and encoding tag.
pub struct FileTagExtension {
    pub tag: Vec<u8>,
    pub encoding: Vec<u8>,
}

/// One attachment, with owned, validated fields.
pub struct FileDescriptor {
    pub flags: u32,
    pub position: u32,
    /// absolute path to the attachment's source file
    pub path_name: FilePath,
    /// the file name the attachment should be presented under, already
    /// reduced to its final component (if it had one)
    pub file_name: Option<String>,
    pub file_type: Option<FileTagExtension>,
}

impl FileDescriptor {
    /// The source path carries a final component.
    pub open spec fn wf(&self) -> bool {
        self.path_name.wf()
    }

    /// Build an attachment from the already-copied record fields. Fails
    /// exactly when the source path has no final component; a display
    /// name is reduced to its final component and dropped when it has
    /// none.
    pub fn from_parts(
        flags: u32,
        position: u32,
        path_name: String,
        file_name: Option<String>,
        file_type: Option<FileTagExtension>,
    ) -> (r: Result<FileDescriptor, ()>)
        ensures
            r is Ok <==> file_name_chars(path_name@) is Some,
            r matches Ok(fd) ==> {
                &&& fd.wf()
                &&& fd.flags == flags
                &&& fd.position == position
                &&& fd.path_name@ == path_name@
                &&& fd.file_name.deep_view() == match file_name {
                    Some(n) => file_name_chars(n@),
                    None => None::<Seq<char>>,
                }
                &&& fd.file_type == file_type
            },
    {
        let path_name = match FilePath::try_from(path_name) {
            Ok(p) => p,
            Err(()) => {
                return Err(());
            },
        };
        let file_name = match file_name {
            Some(n) => path_file_name(n.as_str()),
            None => None,
        };
        Ok(FileDescriptor { flags, position, path_name, file_name, file_type })
    }

    /// An attachment with only a path and an optional display name, as
    /// the boundary-free callers build it.
    pub fn new(file_path: &str, file_name: Option<&str>) -> (r: FileDescriptor)
        requires
            file_name_chars(file_path@) is Some,
        ensures
            r.wf(),
            r.flags == 0,
            r.position == 0,
            r.path_name@ == file_path@,
            r.file_name.deep_view() == match file_name {
                Some(n) => file_name_chars(n@),
                None => None::<Seq<char>>,
            },
            r.file_type is None,
    {
        let owned_name = match file_name {
            Some(n) => Some(n.to_owned()),
            None => None,
        };
        match Self::from_parts(0, 0, file_path.to_owned(), owned_name, None) {
            Ok(fd) => fd,
            Err(()) => {
                // unreachable: the path was required to carry a component
                FileDescriptor {
                    flags: 0,
                    position: 0,
                    path_name: FilePath::try_from(file_path.to_owned()).unwrap(),
                    file_name: None,
                    file_type: None,
                }
            },
        }
    }

    /// Whether consolidation must rename: a display name is present and
    /// differs from the source path's own final component.
    pub open spec fn needs_new_name_spec(&self) -> bool {
        match self.file_name {
            Some(n) => file_name_chars(self.path_name@) != Some(n@),
            None => false,
        }
    }

    /// Check whether the attachment must change names when consolidated.
    pub fn needs_new_name(&self) -> (b: bool)
        requires
            self.wf(),
        ensures
            b == self.needs_new_name_spec(),
    {
        match &self.file_name {
            Some(n) => {
                let path_name = self.path_name.file_name();
                !(path_name == *n)
            },
            None => false,
        }
    }

    /// The file name the consolidated copy carries: the display name when
    /// it forces a rename, the path's own final component otherwise.
    pub open spec fn target_name_chars(&self) -> Seq<char>
        recommends
            self.wf(),
    {
        if self.needs_new_name_spec() {
            self.file_name->0@
        } else {
            file_name_chars(self.path_name@)->0
        }
    }

    /// The file name the consolidated copy is to carry.
    pub fn target_name(&self) -> (r: String)
        requires
            self.wf(),
        ensures
            r@ == self.target_name_chars(),
    {
        if self.needs_new_name() {
            match &self.file_name {
                Some(n) => n.clone(),
                None => String::new(),  // unreachable: a rename needs a display name
            }
        } else {
            self.path_name.file_name()
        }
    }

    /// The subfolder an attachment with the given content goes into: the
    /// digest head, or the fixed fallback when the content was unreadable.
    pub open spec fn subfolder_chars(content: Option<Seq<u8>>) -> Seq<char> {
        match content {
            Some(bytes) => sha_head_chars(sha256_of(bytes)),
            None => fallback_subdir_chars(),
        }
    }

    /// Where the attachment is to be copied under `tmp_path`, given the
    /// content that was read from its source file.
    pub open spec fn copy_destination_chars(
        &self,
        tmp_path: Seq<char>,
        content: Option<Seq<u8>>,
    ) -> Seq<char> {
        join_chars(join_chars(tmp_path, Self::subfolder_chars(content)), self.target_name_chars())
    }

    /// The destination path for the copy: the temp root, the
    /// content-addressed subfolder, the target file name.
    pub fn copy_file_to_tmp_subdir(&self, tmp_path: &String, content: &Option<Vec<u8>>) -> (dest:
        String)
        requires
            self.wf(),
        ensures
            dest@ == self.copy_destination_chars(tmp_path@, content.deep_view()),
    {
        let sub_name = match content {
            Some(bytes) => {
                proof {
                    assert(bytes.deep_view() =~= bytes@);
                }
                make_subfolder_name_from_content(bytes)
            },
            None => fallback_tmp_subdir_path(),
        };
        proof {
            assert(sub_name@ == Self::subfolder_chars(content.deep_view()));
        }
        let dir = path_join(tmp_path.as_str(), sub_name.as_str());
        let name = self.target_name();
        let dest = path_join(dir.as_str(), name.as_str());
        proof {
            assert(dest@ == join_chars(
                join_chars(tmp_path@, Self::subfolder_chars(content.deep_view())),
                self.target_name_chars(),
            ));
        }
        dest
    }

    /// What consolidation returns: the destination when there is a temp
    /// root and the copy went through, the original source path otherwise.
    pub open spec fn consolidated_chars(
        &self,
        tmp_path: Option<Seq<char>>,
        content: Option<Seq<u8>>,
        copy_ok: bool,
    ) -> Seq<char> {
        match tmp_path {
            Some(t) => if copy_ok {
                self.copy_destination_chars(t, content)
            } else {
                self.path_name@
            },
            None => self.path_name@,
        }
    }

    /// The path to hand to the mail client for this attachment. `content`
    /// is what the collaborator read from the source file (`None` when it
    /// was unreadable) and `copy_ok` reports whether it created the
    /// subfolder and copied the file; on any failure, and without a temp
    /// root, the original source path is handed back, so consolidation
    /// never aborts the message.
    pub fn consolidate_into(
        &self,
        tmp_path: &Option<String>,
        content: &Option<Vec<u8>>,
        copy_ok: bool,
    ) -> (r: String)
        requires
            self.wf(),
        ensures
            r@ == self.consolidated_chars(tmp_path.deep_view(), content.deep_view(), copy_ok),
    {
        match tmp_path {
            Some(t) => {
                if copy_ok {
                    self.copy_file_to_tmp_subdir(t, content)
                } else {
                    self.path_name.as_string().clone()
                }
            },
            None => self.path_name.as_string().clone(),
        }
    }
}

/// Identity law: with no temp root, consolidation returns exactly the
/// original source path, whatever the content and copy outcomes were.
pub proof fn lemma_consolidate_without_root_is_identity(
    fd: FileDescriptor,
    content: Option<Seq<u8>>,
    copy_ok: bool,
)
    ensures
        fd.consolidated_chars(None, content, copy_ok) == fd.path_name@,
{
}

/// Content addressing is deterministic: attachments with the same target
/// name and the same content consolidate to the same destination under the
/// same temp root, however often and from wherever they are submitted.
pub proof fn lemma_consolidation_is_content_addressed(
    fd1: FileDescriptor,
    fd2: FileDescriptor,
    tmp_path: Seq<char>,
    content: Option<Seq<u8>>,
)
    requires
        fd1.target_name_chars() == fd2.target_name_chars(),
    ensures
        fd1.copy_destination_chars(tmp_path, content) == fd2.copy_destination_chars(
            tmp_path,
            content,
        ),
{
}

/// A missing display name never forces a rename, and neither does one
/// whose final component equals the source path's final component,
/// whatever directories the two sit in.
pub proof fn lemma_matching_names_need_no_rename(fd: FileDescriptor)
    ensures
        fd.file_name is None ==> !fd.needs_new_name_spec(),
        (fd.file_name matches Some(n) && file_name_chars(fd.path_name@) == Some(n@))
            ==> !fd.needs_new_name_spec(),
{
}

/// The same, stated of the display name as it was given: a descriptor
/// built from a display name whose final component equals the source
/// path's final component never renames, whatever directories the two
/// named.
pub proof fn lemma_display_with_matching_component_needs_no_rename(
    fd: FileDescriptor,
    display: Seq<char>,
)
    requires
        fd.file_name.deep_view() == file_name_chars(display),
        file_name_chars(display) == file_name_chars(fd.path_name@),
    ensures
        !fd.needs_new_name_spec(),
{
}

} // verus!
