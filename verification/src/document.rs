//! The text of the material: a resource file with a header, one external
//! reference for each texture, and one resource block whose properties point
//! at the textures by their short references.

use crate::mapping::{mappings, GodotMaterialMapping, Mapping};
use crate::property::GodotMaterialProperty;
use crate::token::{generate_godot_uid, is_token};
use vstd::prelude::*;
use vstd::string::StringExecFns;

verus! {

/// How many characters the identifier of the material has.
pub const MATERIAL_UID_LENGTH: usize = 12;

/// The first line of the file, which names the kind of resource and its
/// identifier, and the empty line after it.
pub open spec fn header(uid: Seq<char>) -> Seq<char> {
    "[gd_resource type=\"StandardMaterial3D\" format=3 uid=\"uid://"@ + uid + "\"]\n\n"@
}

/// The line that declares one texture: its source path, its UID and the short
/// reference by which the properties name it.
pub open spec fn ext_resource(mapping: Mapping) -> Seq<char> {
    "[ext_resource type=\"Texture2D\" path=\""@ + mapping.source_file + "\" uid=\"uid://"@
        + mapping.uid + "\" id=\""@ + mapping.short_uid + "\"]\n"@
}

/// The declarations of all textures, in the order of the list.
pub open spec fn ext_resources(list: Seq<Mapping>) -> Seq<char>
    decreases list.len(),
{
    if list.len() == 0 {
        Seq::empty()
    } else {
        ext_resources(list.drop_last()) + ext_resource(list.last())
    }
}

/// A property that points at a texture, on a line of its own.
pub open spec fn texture_line(name: Seq<char>, short_uid: Seq<char>) -> Seq<char> {
    "\n"@ + name + " = ExtResource(\""@ + short_uid + "\")"@
}

/// The lines that one texture adds to the resource block. Some properties
/// need a switch or a value set besides the texture.
pub open spec fn property_lines(mapping: Mapping) -> Seq<char> {
    match mapping.property {
        GodotMaterialProperty::AlbedoTexture => texture_line("albedo_texture"@, mapping.short_uid),
        GodotMaterialProperty::NormalTexture => "\nnormal_enabled = true"@ + texture_line(
            "normal_texture"@,
            mapping.short_uid,
        ),
        GodotMaterialProperty::HeightTexture => "\nheightmap_enabled = true"@ + texture_line(
            "heightmap_texture"@,
            mapping.short_uid,
        ),
        GodotMaterialProperty::RoughnessTexture => texture_line(
            "roughness_texture"@,
            mapping.short_uid,
        ),
        GodotMaterialProperty::MetallicTexture => "\nmetallic = 1.0"@ + texture_line(
            "metallic_texture"@,
            mapping.short_uid,
        ),
        GodotMaterialProperty::AmbientOcclusionTexture => "\nao_enabled = true"@ + texture_line(
            "ao_texture"@,
            mapping.short_uid,
        ),
    }
}

/// The lines of all textures, in the order of the list. Two textures with the
/// same property both get their lines.
pub open spec fn all_property_lines(list: Seq<Mapping>) -> Seq<char>
    decreases list.len(),
{
    if list.len() == 0 {
        Seq::empty()
    } else {
        all_property_lines(list.drop_last()) + property_lines(list.last())
    }
}

/// The resource block: an empty line, the tag, and the lines of all textures.
/// The text does not end in a line feed.
pub open spec fn resources(list: Seq<Mapping>) -> Seq<char> {
    "\n[resource]"@ + all_property_lines(list)
}

/// The whole text of the material.
pub open spec fn material(uid: Seq<char>, list: Seq<Mapping>) -> Seq<char> {
    header(uid) + ext_resources(list) + resources(list)
}

/// The text of a material is fixed by its identifier and by the UID, source
/// path, property and short reference of each texture: the same of each gives
/// the same text, character for character, whatever files the textures were
/// read from.
pub proof fn lemma_material_is_determined(
    uid_a: Seq<char>,
    list_a: Seq<Mapping>,
    uid_b: Seq<char>,
    list_b: Seq<Mapping>,
)
    requires
        uid_a.len() == uid_b.len(),
        forall|i: int| 0 <= i < uid_a.len() ==> uid_a[i] == uid_b[i],
        list_a.len() == list_b.len(),
        forall|i: int|
            0 <= i < list_a.len() ==> {
                &&& list_a[i].uid =~= list_b[i].uid
                &&& list_a[i].short_uid =~= list_b[i].short_uid
                &&& list_a[i].source_file =~= list_b[i].source_file
                &&& list_a[i].property == list_b[i].property
            },
    ensures
        material(uid_a, list_a) == material(uid_b, list_b),
{
    lemma_lines_are_determined(list_a, list_b);
}

/// The declarations and the property lines of two lists agree where the
/// lists agree in UID, source path, property and short reference.
proof fn lemma_lines_are_determined(list_a: Seq<Mapping>, list_b: Seq<Mapping>)
    requires
        list_a.len() == list_b.len(),
        forall|i: int|
            0 <= i < list_a.len() ==> {
                &&& list_a[i].uid =~= list_b[i].uid
                &&& list_a[i].short_uid =~= list_b[i].short_uid
                &&& list_a[i].source_file =~= list_b[i].source_file
                &&& list_a[i].property == list_b[i].property
            },
    ensures
        ext_resources(list_a) == ext_resources(list_b),
        all_property_lines(list_a) == all_property_lines(list_b),
    decreases list_a.len(),
{
    if list_a.len() > 0 {
        lemma_lines_are_determined(list_a.drop_last(), list_b.drop_last());
    }
}

/// Appends the header of the material to `mat_data`.
pub fn generate_header(mat_data: &mut String, uid: &str)
    ensures
        final(mat_data)@ == old(mat_data)@ + header(uid@),
{
    mat_data.append("[gd_resource type=\"StandardMaterial3D\" format=3 uid=\"uid://");
    mat_data.append(uid);
    mat_data.append("\"]\n\n");
}

/// Appends the declaration of one texture to `mat_data`.
fn push_ext_resource(mat_data: &mut String, res: &GodotMaterialMapping)
    ensures
        final(mat_data)@ == old(mat_data)@ + ext_resource(res@),
{
    mat_data.append("[ext_resource type=\"Texture2D\" path=\"");
    mat_data.append(res.source_file.as_str());
    mat_data.append("\" uid=\"uid://");
    mat_data.append(res.uid.as_str());
    mat_data.append("\" id=\"");
    mat_data.append(res.short_uid.as_str());
    mat_data.append("\"]\n");
}

/// Appends the declarations of all textures to `mat_data`, in the order of
/// the list.
pub fn generate_ext_resources(mat_data: &mut String, uid_mapping: &Vec<GodotMaterialMapping>)
    ensures
        final(mat_data)@ == old(mat_data)@ + ext_resources(mappings(uid_mapping@)),
{
    let ghost list = mappings(uid_mapping@);
    let mut i: usize = 0;
    while i < uid_mapping.len()
        invariant
            i <= uid_mapping.len(),
            list == mappings(uid_mapping@),
            mat_data@ == old(mat_data)@ + ext_resources(list.take(i as int)),
        decreases uid_mapping.len() - i,
    {
        push_ext_resource(mat_data, &uid_mapping[i]);
        proof {
            assert(list.take(i + 1).drop_last() =~= list.take(i as int));
        }
        i += 1;
    }
    assert(list.take(uid_mapping.len() as int) =~= list);
}

/// Appends a property that points at a texture to `mat_data`.
fn push_texture_line(mat_data: &mut String, name: &str, short_uid: &str)
    ensures
        final(mat_data)@ == old(mat_data)@ + texture_line(name@, short_uid@),
{
    mat_data.append("\n");
    mat_data.append(name);
    mat_data.append(" = ExtResource(\"");
    mat_data.append(short_uid);
    mat_data.append("\")");
}

/// Appends the lines of one texture to `mat_data`.
fn push_property_lines(mat_data: &mut String, prop: &GodotMaterialMapping)
    ensures
        final(mat_data)@ == old(mat_data)@ + property_lines(prop@),
{
    let short_uid = prop.short_uid.as_str();
    match prop.property {
        GodotMaterialProperty::AlbedoTexture => {
            push_texture_line(mat_data, "albedo_texture", short_uid);
        },
        GodotMaterialProperty::NormalTexture => {
            mat_data.append("\nnormal_enabled = true");
            push_texture_line(mat_data, "normal_texture", short_uid);
        },
        GodotMaterialProperty::RoughnessTexture => {
            push_texture_line(mat_data, "roughness_texture", short_uid);
        },
        GodotMaterialProperty::HeightTexture => {
            mat_data.append("\nheightmap_enabled = true");
            push_texture_line(mat_data, "heightmap_texture", short_uid);
        },
        GodotMaterialProperty::MetallicTexture => {
            mat_data.append("\nmetallic = 1.0");
            push_texture_line(mat_data, "metallic_texture", short_uid);
        },
        GodotMaterialProperty::AmbientOcclusionTexture => {
            mat_data.append("\nao_enabled = true");
            push_texture_line(mat_data, "ao_texture", short_uid);
        },
    }
}

/// Appends the resource block to `mat_data`: the tag and, for each texture in
/// the order of the list, the lines of its property.
pub fn generate_resources(mat_data: &mut String, uid_mapping: &Vec<GodotMaterialMapping>)
    ensures
        final(mat_data)@ == old(mat_data)@ + resources(mappings(uid_mapping@)),
{
    let ghost list = mappings(uid_mapping@);
    mat_data.append("\n[resource]");
    let ghost tagged = mat_data@;
    let mut i: usize = 0;
    while i < uid_mapping.len()
        invariant
            i <= uid_mapping.len(),
            list == mappings(uid_mapping@),
            mat_data@ == tagged + all_property_lines(list.take(i as int)),
        decreases uid_mapping.len() - i,
    {
        push_property_lines(mat_data, &uid_mapping[i]);
        proof {
            assert(list.take(i + 1).drop_last() =~= list.take(i as int));
        }
        i += 1;
    }
    assert(list.take(uid_mapping.len() as int) =~= list);
}

/// The text of the material with the identifier `uid` for the textures of
/// `mapping`.
pub fn render_material(uid: &str, mapping: &Vec<GodotMaterialMapping>) -> (mat_data: String)
    ensures
        mat_data@ == material(uid@, mappings(mapping@)),
{
    let mut mat_data = String::new();
    generate_header(&mut mat_data, uid);
    generate_ext_resources(&mut mat_data, mapping);
    generate_resources(&mut mat_data, mapping);
    mat_data
}

/// The text of the material for the textures of `mapping`, under a fresh
/// random identifier.
pub fn generate_material(mapping: &Vec<GodotMaterialMapping>) -> (mat_data: String)
    ensures
        exists|uid: Seq<char>|
            is_token(uid, MATERIAL_UID_LENGTH as nat) && mat_data@ == #[trigger] material(
                uid,
                mappings(mapping@),
            ),
{
    let uid = generate_godot_uid(MATERIAL_UID_LENGTH);
    render_material(uid.as_str(), mapping)
}

} // verus!
