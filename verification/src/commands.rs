//! The local command interface: the operations of the file system as
//! commands that fail with a message.

use crate::clock::Timestamp;
use crate::config::{AppConfig, SettingsPatch};
use crate::error::VfsError;
use crate::path::text_of;
use crate::store::{FileSpec, VirtualFile};
use crate::tree::{views, FileNode};
use crate::vfs::VirtualFileSystem;
use vstd::prelude::*;
use vstd::string::*;

verus! {

/// What the command that reads a file returns: the record without its times.
#[derive(Debug)]
pub struct FileInfo {
    pub id: String,
    pub name: String,
    pub content: String,
    pub language: Option<String>,
}

/// Whether `info` shows the record `file`.
pub open spec fn shows(info: FileInfo, file: FileSpec) -> bool {
    &&& info.id@ == file.id
    &&& info.name@ == file.name
    &&& info.content@ == file.content
    &&& text_of(info.language) == file.language
}

/// Whether `r` is the failure with the message of `e`.
pub open spec fn fails_with<T>(r: Result<T, String>, e: VfsError) -> bool {
    r matches Err(message) && message@ == e.message_text()
}

/// What is shown of the record `file`: all but its times.
pub fn file_info(file: &VirtualFile) -> (info: FileInfo)
    ensures
        shows(info, file@),
{
    let language = match &file.language {
        Some(l) => Some(l.clone()),
        None => None,
    };
    FileInfo {
        id: file.id.clone(),
        name: file.name.clone(),
        content: file.content.clone(),
        language,
    }
}

/// Reads the file `file_id`.
pub fn read_file(vfs: &VirtualFileSystem, file_id: String) -> (r: Result<FileInfo, String>)
    ensures
        match vfs@.read(file_id@) {
            Ok(file) => r matches Ok(info) && shows(info, file),
            Err(e) => fails_with(r, e),
        },
{
    match vfs.read_file(file_id.as_str()) {
        Ok(file) => Ok(file_info(file)),
        Err(e) => Err(e.message()),
    }
}

/// Writes `content` to the file `file_id`.
pub fn write_file(vfs: &mut VirtualFileSystem, file_id: String, content: String) -> (r: Result<
    (),
    String,
>)
    ensures
        old(vfs)@.files.contains_key(file_id@) ==> r is Ok && exists|now: Timestamp|
            final(vfs)@ == old(vfs)@.with_content(file_id@, content@, now),
        !old(vfs)@.files.contains_key(file_id@) ==> fails_with(r, VfsError::NotFound)
            && final(vfs)@ == old(vfs)@,
{
    match vfs.write_file(file_id.as_str(), content) {
        Ok(_) => Ok(()),
        Err(e) => Err(e.message()),
    }
}

/// Creates a file at `path` with `content` and returns its identifier.
pub fn create_file(vfs: &mut VirtualFileSystem, path: String, content: String) -> (r: Result<
    String,
    String,
>)
    ensures
        old(vfs)@.create_error(path@) matches Some(e) ==> fails_with(r, e) && final(vfs)@ == old(
            vfs,
        )@,
        old(vfs)@.create_error(path@) is None ==> (r matches Ok(id) && exists|
            node_id: Seq<char>,
            now: Timestamp,
        |
            final(vfs)@ == old(vfs)@.with_file(path@, content@, id@, node_id, now)),
{
    let ghost before = vfs@;
    let ghost text = content@;
    let made = vfs.create_file(path.as_str(), content);
    match made {
        Ok(id) => {
            let out: Result<String, String> = Ok(id);
            assert(out matches Ok(i) && exists|node_id: Seq<char>, now: Timestamp|
                vfs@ == before.with_file(path@, text, i@, node_id, now));
            out
        },
        Err(e) => {
            assert(before.create_error(path@) == Some(e));
            Err(e.message())
        },
    }
}

/// Deletes the file `file_id`.
pub fn delete_file(vfs: &mut VirtualFileSystem, file_id: String) -> (r: Result<(), String>)
    ensures
        old(vfs)@.files.contains_key(file_id@) ==> r is Ok && final(vfs)@ == old(
            vfs,
        )@.without_file(file_id@),
        !old(vfs)@.files.contains_key(file_id@) ==> fails_with(r, VfsError::NotFound)
            && final(vfs)@ == old(vfs)@,
{
    match vfs.delete_file(file_id.as_str()) {
        Ok(_) => Ok(()),
        Err(e) => Err(e.message()),
    }
}

/// Lists the directory at `path`.
pub fn list_directory(vfs: &VirtualFileSystem, path: String) -> (r: Result<Vec<FileNode>, String>)
    ensures
        match vfs@.list(path@) {
            Ok(nodes) => r matches Ok(listed) && views(listed@) == nodes,
            Err(e) => fails_with(r, e),
        },
{
    match vfs.list_directory(path.as_str()) {
        Ok(nodes) => Ok(nodes),
        Err(e) => Err(e.message()),
    }
}

/// A copy of the configuration.
pub fn get_settings(config: &AppConfig) -> (r: Result<AppConfig, String>)
    ensures
        r matches Ok(c) && c@ == config@,
{
    Ok(config.clone())
}

/// Merges `settings` into the configuration, setting by setting.
pub fn update_settings(settings: &SettingsPatch, config: &mut AppConfig) -> (r: Result<
    (),
    String,
>)
    ensures
        r is Ok,
        final(config)@ == old(config)@.updated(settings@),
{
    config.update_settings(settings);
    Ok(())
}

} // verus!
