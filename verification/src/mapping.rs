//! From the `.import` files that were found to the list of textures that the
//! material refers to.
//!
//! A file enters the list only if it yields all three of UID, source path and
//! property. Each entry gets a short reference, by which the material's
//! properties point at the texture: the entry's place in the list, counted
//! from one, an underscore, and a random token of five characters.

use crate::extract::{extract_fields, fields_of, SidecarFields};
use crate::pattern::SidecarPatterns;
use crate::property::{
    get_godot_property, lemma_import_suffix_keeps_property, property_of, GodotMaterialProperty,
};
use crate::sidecar::{file_name, file_name_of, lemma_sidecar_file_name, sidecar_of};
use crate::text::{decimal, lemma_decimal_injective, lines, push_decimal};
use crate::token::{generate_godot_uid, is_token};
use vstd::prelude::*;
use vstd::string::StringExecFns;

verus! {

/// How many characters the random tail of a short reference has.
pub const SHORT_TOKEN_LENGTH: usize = 5;

/// An `.import` file that was found: where it lies and what it holds.
#[derive(Debug, PartialEq, Eq)]
pub struct ImportFile {
    pub path: String,
    pub content: String,
}

/// An `.import` file, over sequences of characters.
pub struct Import {
    pub path: Seq<char>,
    pub content: Seq<char>,
}

impl View for ImportFile {
    type V = Import;

    open spec fn view(&self) -> Import {
        Import { path: self.path@, content: self.content@ }
    }
}

/// What an `.import` file tells of its texture.
pub struct Texture {
    pub original_path: Seq<char>,
    pub uid: Seq<char>,
    pub source_file: Seq<char>,
    pub property: GodotMaterialProperty,
}

/// One texture of the material.
#[derive(Debug, PartialEq, Eq)]
pub struct GodotMaterialMapping {
    /// The path of the `.import` file that the entry was read from.
    pub original_path: String,
    /// The UID that the editor gave the texture.
    pub uid: String,
    /// The reference by which the material's properties name the texture.
    pub short_uid: String,
    /// The path of the texture in the project.
    pub source_file: String,
    /// The property of the material that the texture fills.
    pub property: GodotMaterialProperty,
}

/// One texture of the material, over sequences of characters.
pub struct Mapping {
    pub original_path: Seq<char>,
    pub uid: Seq<char>,
    pub short_uid: Seq<char>,
    pub source_file: Seq<char>,
    pub property: GodotMaterialProperty,
}

impl View for GodotMaterialMapping {
    type V = Mapping;

    open spec fn view(&self) -> Mapping {
        Mapping {
            original_path: self.original_path@,
            uid: self.uid@,
            short_uid: self.short_uid@,
            source_file: self.source_file@,
            property: self.property,
        }
    }
}

/// The views of a list of `.import` files, in order.
pub open spec fn imports(files: Seq<ImportFile>) -> Seq<Import> {
    Seq::new(files.len(), |i: int| files[i]@)
}

/// The views of a list of mappings, in order.
pub open spec fn mappings(list: Seq<GodotMaterialMapping>) -> Seq<Mapping> {
    Seq::new(list.len(), |i: int| list[i]@)
}

/// What an `.import` file tells of its texture: the UID and the source path
/// from its text, the property from its file name. `None` where one of the
/// three is missing.
pub open spec fn texture_of(file: Import) -> Option<Texture> {
    let fields = fields_of(lines(file.content));
    let property = property_of(file_name(file.path));
    if fields.is_complete() && property is Some {
        Some(
            Texture {
                original_path: file.path,
                uid: fields.uid->0,
                source_file: fields.source_file->0,
                property: property->0,
            },
        )
    } else {
        None
    }
}

/// The textures of those files that tell all three, in the order of the files.
pub open spec fn textures_of(files: Seq<Import>) -> Seq<Texture>
    decreases files.len(),
{
    if files.len() == 0 {
        Seq::empty()
    } else {
        let before = textures_of(files.drop_last());
        match texture_of(files.last()) {
            Some(texture) => before.push(texture),
            None => before,
        }
    }
}

/// The short reference of the entry at place `ordinal`, counted from one.
pub open spec fn short_uid(ordinal: nat, token: Seq<char>) -> Seq<char> {
    decimal(ordinal).push('_') + token
}

/// The entry for a texture at place `ordinal`, counted from one.
pub open spec fn mapping_of(texture: Texture, ordinal: nat, token: Seq<char>) -> Mapping {
    Mapping {
        original_path: texture.original_path,
        uid: texture.uid,
        short_uid: short_uid(ordinal, token),
        source_file: texture.source_file,
        property: texture.property,
    }
}

/// The list for a sequence of textures, the entry at index `i` with the token
/// at index `i`.
pub open spec fn mappings_of(textures: Seq<Texture>, tokens: Seq<Seq<char>>) -> Seq<Mapping> {
    Seq::new(textures.len(), |i: int| mapping_of(textures[i], (i + 1) as nat, tokens[i]))
}

/// Whether every token has the shape of the tail of a short reference.
pub open spec fn are_short_tokens(tokens: Seq<Seq<char>>) -> bool {
    forall|i: int| 0 <= i < tokens.len() ==> is_token(#[trigger] tokens[i], SHORT_TOKEN_LENGTH as nat)
}

/// The property of a texture can be told from its own path as well as from
/// the path of its `.import` file.
pub proof fn lemma_property_of_sidecar(path: Seq<char>)
    ensures
        property_of(file_name(sidecar_of(path))) == property_of(file_name(path)),
{
    lemma_sidecar_file_name(path);
    lemma_import_suffix_keeps_property(file_name(path));
}

/// No more textures than files; as many if and only if every file tells all
/// three of UID, source path and property.
pub proof fn lemma_textures_count(files: Seq<Import>)
    ensures
        textures_of(files).len() <= files.len(),
        textures_of(files).len() == files.len() <==> forall|i: int|
            0 <= i < files.len() ==> texture_of(#[trigger] files[i]) is Some,
        textures_of(files).len() == files.len() ==> forall|i: int|
            0 <= i < files.len() ==> texture_of(files[i]) == Some(#[trigger] textures_of(files)[i]),
    decreases files.len(),
{
    if files.len() > 0 {
        let front = files.drop_last();
        lemma_textures_count(front);
        assert forall|i: int| 0 <= i < front.len() implies front[i] == files[i] by {}
        if textures_of(files).len() == files.len() {
            assert forall|i: int| 0 <= i < files.len() implies texture_of(files[i]) == Some(
                #[trigger] textures_of(files)[i],
            ) by {
                if i < front.len() {
                    assert(textures_of(files)[i] == textures_of(front)[i]);
                }
            }
        }
    }
}

/// Short references at different places differ, whatever their tokens are, as
/// long as the tokens are of one length.
pub proof fn lemma_short_uids_differ(a: nat, token_a: Seq<char>, b: nat, token_b: Seq<char>)
    requires
        a != b,
        token_a.len() == token_b.len(),
    ensures
        short_uid(a, token_a) != short_uid(b, token_b),
{
    let head_a = decimal(a).push('_');
    let head_b = decimal(b).push('_');
    if short_uid(a, token_a) == short_uid(b, token_b) {
        assert(short_uid(a, token_a).len() == head_a.len() + token_a.len());
        assert(short_uid(b, token_b).len() == head_b.len() + token_b.len());
        assert(head_a =~= short_uid(a, token_a).take(head_a.len() as int));
        assert(head_b =~= short_uid(b, token_b).take(head_b.len() as int));
        assert(head_a.drop_last() =~= decimal(a));
        assert(head_b.drop_last() =~= decimal(b));
        lemma_decimal_injective(a, b);
    }
}

/// Within one list no short reference occurs twice.
pub proof fn lemma_short_uids_unique(textures: Seq<Texture>, tokens: Seq<Seq<char>>, i: int, j: int)
    requires
        tokens.len() == textures.len(),
        are_short_tokens(tokens),
        0 <= i < textures.len(),
        0 <= j < textures.len(),
        i != j,
    ensures
        mappings_of(textures, tokens)[i].short_uid != mappings_of(textures, tokens)[j].short_uid,
{
    lemma_short_uids_differ((i + 1) as nat, tokens[i], (j + 1) as nat, tokens[j]);
}

impl GodotMaterialMapping {
    /// The entry at place `ordinal`, counted from one, for the texture of the
    /// `.import` file at `original_path`, with the given UID, source path and
    /// property. `token` becomes the tail of the short reference.
    pub fn new(
        original_path: String,
        uid: String,
        source_file: String,
        property: GodotMaterialProperty,
        ordinal: usize,
        token: &str,
    ) -> (mapping: GodotMaterialMapping)
        ensures
            mapping@ == mapping_of(
                Texture {
                    original_path: original_path@,
                    uid: uid@,
                    source_file: source_file@,
                    property,
                },
                ordinal as nat,
                token@,
            ),
    {
        let mut short_uid = String::new();
        push_decimal(&mut short_uid, ordinal);
        short_uid.push('_');
        short_uid.append(token);
        GodotMaterialMapping { original_path, uid, short_uid, source_file, property }
    }
}

/// Reads the `.import` files that were found and lists the textures of those
/// that tell a UID, a source path and a property. The others are left out
/// without a word: the caller tells from the length of the list that one is
/// missing. The tails of the short references are drawn at random.
pub fn compile_material_mapping(patterns: &SidecarPatterns, files_found: &Vec<ImportFile>) -> (uid_mapping:
    Vec<GodotMaterialMapping>)
    ensures
        uid_mapping.len() == textures_of(imports(files_found@)).len(),
        exists|tokens: Seq<Seq<char>>|
            {
                &&& tokens.len() == uid_mapping.len()
                &&& are_short_tokens(tokens)
                &&& mappings(uid_mapping@) == #[trigger] mappings_of(
                    textures_of(imports(files_found@)),
                    tokens,
                )
            },
        forall|i: int, j: int|
            0 <= i < uid_mapping.len() && 0 <= j < uid_mapping.len() && i != j
                ==> uid_mapping[i].short_uid@ != uid_mapping[j].short_uid@,
{
    let mut uid_mapping: Vec<GodotMaterialMapping> = Vec::new();
    let ghost mut tokens: Seq<Seq<char>> = Seq::empty();
    let ghost files = imports(files_found@);
    let mut i: usize = 0;
    while i < files_found.len()
        invariant
            i <= files_found.len(),
            files == imports(files_found@),
            uid_mapping.len() <= i,
            tokens.len() == uid_mapping.len(),
            are_short_tokens(tokens),
            textures_of(files.take(i as int)).len() == uid_mapping.len(),
            mappings(uid_mapping@) == mappings_of(textures_of(files.take(i as int)), tokens),
        decreases files_found.len() - i,
    {
        let file = &files_found[i];
        let SidecarFields { uid, source_file } = extract_fields(patterns, file.content.as_str());
        let name = file_name_of(file.path.as_str());
        let property = get_godot_property(name.as_str());
        proof {
            assert(files.take(i + 1).drop_last() =~= files.take(i as int));
        }
        match (uid, source_file, property) {
            (Some(uid), Some(source_file), Some(property)) => {
                let token = generate_godot_uid(SHORT_TOKEN_LENGTH);
                let ghost before = textures_of(files.take(i as int));
                let ghost texture = Texture {
                    original_path: file.path@,
                    uid: uid@,
                    source_file: source_file@,
                    property,
                };
                let mapping = GodotMaterialMapping::new(
                    file.path.clone(),
                    uid,
                    source_file,
                    property,
                    uid_mapping.len() + 1,
                    token.as_str(),
                );
                proof {
                    let listed = mappings(uid_mapping@.push(mapping));
                    let wanted = mappings_of(before.push(texture), tokens.push(token@));
                    assert forall|k: int| 0 <= k < listed.len() implies listed[k] == wanted[k] by {
                        if k < uid_mapping.len() {
                            assert(wanted[k] == mappings_of(before, tokens)[k]);
                        }
                    }
                    assert(listed =~= wanted);
                    tokens = tokens.push(token@);
                }
                uid_mapping.push(mapping);
            },
            _ => {},
        }
        i += 1;
    }
    proof {
        assert(files.take(files_found.len() as int) =~= files);
        let textures = textures_of(files);
        assert forall|i: int, j: int|
            0 <= i < uid_mapping.len() && 0 <= j < uid_mapping.len() && i != j implies uid_mapping[i].short_uid@
            != uid_mapping[j].short_uid@ by {
            lemma_short_uids_unique(textures, tokens, i, j);
        }
    }
    uid_mapping
}

} // verus!
