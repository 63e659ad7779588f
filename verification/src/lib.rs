//! Synthesis of a Godot `StandardMaterial3D` from a set of converted textures.
//!
//! The editor imports each texture in its own time and writes an `.import`
//! file beside it, which holds the UID of the resource and its path in the
//! project. The material is made from these files:
//!
//! - `sidecar` tells where the `.import` file of a texture lies;
//! - `locator` decides how long to wait for the files;
//! - `extract` reads the UID and the source path out of such a file;
//! - `property` tells from a file name which property a texture fills;
//! - `mapping` lists the textures and gives each a short reference;
//! - `document` writes the text of the material.
//!
//! Looking for files, sleeping and reading are left to the caller, who hands
//! in what was found.

use crate::document::{generate_material, material, MATERIAL_UID_LENGTH};
use crate::error::MaterialError;
use crate::locator::{lemma_scan_gives_up, lemma_scan_succeeds, scan, seen, ScanEnd, MAX_POLLS};
use crate::mapping::{
    are_short_tokens, compile_material_mapping, imports, lemma_textures_count, mappings_of,
    texture_of, textures_of, Import, ImportFile,
};
use crate::pattern::{patterns_accepted, SidecarPatterns};
use crate::token::is_token;
use vstd::prelude::*;

pub mod document;
pub mod error;
pub mod extract;
pub mod locator;
pub mod mapping;
pub mod pattern;
pub mod property;
pub mod sidecar;
pub mod text;
pub mod token;

verus! {

/// Why no material is made for `candidates` converted files of which these
/// `.import` files were found, or `None` where one is made. The number of
/// files is looked at first; nothing is read where files are missing.
pub open spec fn failure(candidates: nat, files_found: Seq<Import>) -> Option<MaterialError> {
    if files_found.len() < candidates {
        Some(MaterialError::IncompleteImportSet)
    } else if !patterns_accepted() {
        Some(MaterialError::InvalidPattern)
    } else if textures_of(files_found).len() != files_found.len() {
        Some(MaterialError::IncompleteMapping)
    } else {
        None
    }
}

/// Whether `text` is a material for the textures of these `.import` files,
/// under some identifier and with some tokens in the short references.
pub open spec fn is_material_of(text: Seq<char>, files_found: Seq<Import>) -> bool {
    exists|uid: Seq<char>, tokens: Seq<Seq<char>>|
        {
            &&& is_token(uid, MATERIAL_UID_LENGTH as nat)
            &&& tokens.len() == textures_of(files_found).len()
            &&& are_short_tokens(tokens)
            &&& text == #[trigger] material(uid, mappings_of(textures_of(files_found), tokens))
        }
}

/// Where one look within the budget sees the `.import` file of every
/// candidate, the engine accepts the search patterns, and each of these files
/// tells a UID, a source path and a property, the scan ends with all of them,
/// no failure stands in the way of the material, and the material lists as
/// many textures as there are candidates: one for each file, in the order of
/// the files.
pub proof fn lemma_complete_set_succeeds(
    sidecars: Seq<Seq<char>>,
    observations: Seq<Seq<bool>>,
    look: int,
    files_found: Seq<Import>,
)
    requires
        0 <= look < observations.len(),
        look < MAX_POLLS,
        forall|i: int| 0 <= i < sidecars.len() ==> seen(observations[look], i),
        patterns_accepted(),
        files_found.len() == sidecars.len(),
        forall|i: int| 0 <= i < files_found.len() ==> texture_of(#[trigger] files_found[i]) is Some,
    ensures
        scan(0, sidecars, observations) == ScanEnd::Found(sidecars),
        failure(sidecars.len(), files_found) is None,
        textures_of(files_found).len() == sidecars.len(),
        forall|i: int|
            0 <= i < files_found.len() ==> texture_of(files_found[i]) == Some(
                #[trigger] textures_of(files_found)[i],
            ),
{
    lemma_scan_succeeds(0, sidecars, observations, look);
    lemma_textures_count(files_found);
}

/// Where the `.import` file of one candidate is seen in no look of the
/// budget, the scan gives up with fewer files than candidates, and with these
/// the material fails for want of `.import` files, whatever the files hold.
pub proof fn lemma_missing_import_fails(
    sidecars: Seq<Seq<char>>,
    observations: Seq<Seq<bool>>,
    missing: int,
)
    requires
        observations.len() >= MAX_POLLS,
        0 <= missing < sidecars.len(),
        forall|look: int| 0 <= look < MAX_POLLS ==> !seen(observations[look], missing),
    ensures
        scan(0, sidecars, observations) is Incomplete,
        forall|files_found: Seq<Import>|
            files_found.len() == scan(0, sidecars, observations)->Incomplete_0.len() ==> #[trigger] failure(
                sidecars.len(),
                files_found,
            ) == Some(MaterialError::IncompleteImportSet),
{
    lemma_scan_gives_up(0, sidecars, observations, missing);
}

/// Makes the material for the converted `files`, of which the `.import` files
/// `files_found` were found and read.
///
/// Fails with `IncompleteImportSet` where fewer `.import` files were found
/// than there are converted files, before anything is read out of them; with
/// `InvalidPattern` where the search patterns are refused; with
/// `IncompleteMapping` where some `.import` file does not tell a UID, a source
/// path and a property. Else the text of the material is returned; its
/// identifier and the tails of its short references are drawn at random.
pub fn synthesize(files: &Vec<String>, files_found: &Vec<ImportFile>) -> (result: Result<
    String,
    MaterialError,
>)
    ensures
        match failure(files.len() as nat, imports(files_found@)) {
            Some(error) => result == Err::<String, MaterialError>(error),
            None => result matches Ok(text) && is_material_of(text@, imports(files_found@)),
        },
{
    // Fewer .import files than converted files: the editor has not seen all
    // files yet, or has failed to import some.
    if files_found.len() < files.len() {
        return Err(MaterialError::IncompleteImportSet);
    }
    let patterns = match SidecarPatterns::new() {
        Ok(patterns) => patterns,
        Err(error) => {
            return Err(error);
        },
    };
    let uid_mapping = compile_material_mapping(&patterns, files_found);
    // Fewer textures than .import files: the material would lack properties.
    if uid_mapping.len() != files_found.len() {
        return Err(MaterialError::IncompleteMapping);
    }
    Ok(generate_material(&uid_mapping))
}

/// Generates a `StandardMaterial3D` for the files that have been converted,
/// from the `.import` files that the editor has written for them. The file
/// names must hold hints such as "albedo" or "normal".
///
/// Supported hints: albedo, normal, height, roughness, metallic, _ao (ambient
/// occlusion).
///
/// Returns the text of the material, or the message of the failure that
/// `synthesize` reports.
pub fn generate(files: Vec<String>, files_found: Vec<ImportFile>) -> (result: Result<String, String>)
    ensures
        match failure(files.len() as nat, imports(files_found@)) {
            Some(error) => result matches Err(message) && message@ == error.text(),
            None => result matches Ok(text) && is_material_of(text@, imports(files_found@)),
        },
{
    match synthesize(&files, &files_found) {
        Ok(text) => Ok(text),
        Err(error) => Err(error.message()),
    }
}

} // verus!
