//! Which property of a material a texture fills, told from hints in its file
//! name.

use crate::text::{contains, occurs_at, str_contains};
use vstd::prelude::*;

verus! {

/// The properties of a `StandardMaterial3D` that a texture can fill.
#[derive(Clone, Copy, Debug, PartialEq, Eq, Structural)]
pub enum GodotMaterialProperty {
    AlbedoTexture,
    NormalTexture,
    HeightTexture,
    RoughnessTexture,
    MetallicTexture,
    AmbientOcclusionTexture,
}

impl GodotMaterialProperty {
    /// The hint that a file name holds for this property. Ambient occlusion
    /// asks for the underscore, so that a word with "ao" in it is no hint.
    pub open spec fn hint(self) -> Seq<char> {
        match self {
            GodotMaterialProperty::AlbedoTexture => "albedo"@,
            GodotMaterialProperty::NormalTexture => "normal"@,
            GodotMaterialProperty::HeightTexture => "height"@,
            GodotMaterialProperty::RoughnessTexture => "roughness"@,
            GodotMaterialProperty::MetallicTexture => "metallic"@,
            GodotMaterialProperty::AmbientOcclusionTexture => "_ao"@,
        }
    }

    /// The place of this property in the order in which the hints are tried.
    pub open spec fn rank(self) -> nat {
        match self {
            GodotMaterialProperty::AlbedoTexture => 0,
            GodotMaterialProperty::NormalTexture => 1,
            GodotMaterialProperty::HeightTexture => 2,
            GodotMaterialProperty::RoughnessTexture => 3,
            GodotMaterialProperty::MetallicTexture => 4,
            GodotMaterialProperty::AmbientOcclusionTexture => 5,
        }
    }
}

/// The property that a file name stands for: that of the first hint, in the
/// order of `rank`, that the name holds. The search regards case.
pub open spec fn property_of(filename: Seq<char>) -> Option<GodotMaterialProperty> {
    if contains(filename, GodotMaterialProperty::AlbedoTexture.hint()) {
        Some(GodotMaterialProperty::AlbedoTexture)
    } else if contains(filename, GodotMaterialProperty::NormalTexture.hint()) {
        Some(GodotMaterialProperty::NormalTexture)
    } else if contains(filename, GodotMaterialProperty::HeightTexture.hint()) {
        Some(GodotMaterialProperty::HeightTexture)
    } else if contains(filename, GodotMaterialProperty::RoughnessTexture.hint()) {
        Some(GodotMaterialProperty::RoughnessTexture)
    } else if contains(filename, GodotMaterialProperty::MetallicTexture.hint()) {
        Some(GodotMaterialProperty::MetallicTexture)
    } else if contains(filename, GodotMaterialProperty::AmbientOcclusionTexture.hint()) {
        Some(GodotMaterialProperty::AmbientOcclusionTexture)
    } else {
        None
    }
}

/// Every file name has exactly one answer, and the first hint wins: a name is
/// given a property if and only if it holds that property's hint and the hint
/// of no property that is tried earlier. A name with no hint has no property.
pub proof fn lemma_first_hint_wins(filename: Seq<char>, property: GodotMaterialProperty)
    ensures
        property_of(filename) == Some(property) <==> {
            &&& contains(filename, property.hint())
            &&& forall|earlier: GodotMaterialProperty|
                earlier.rank() < property.rank() ==> !contains(filename, #[trigger] earlier.hint())
        },
        property_of(filename) is None <==> forall|any: GodotMaterialProperty|
            !contains(filename, #[trigger] any.hint()),
        contains(filename, GodotMaterialProperty::AlbedoTexture.hint()) ==> property_of(filename)
            == Some(GodotMaterialProperty::AlbedoTexture),
{
    if property_of(filename) is None {
        assert forall|any: GodotMaterialProperty| !contains(filename, #[trigger] any.hint()) by {
            match any {
                GodotMaterialProperty::AlbedoTexture => {},
                GodotMaterialProperty::NormalTexture => {},
                GodotMaterialProperty::HeightTexture => {},
                GodotMaterialProperty::RoughnessTexture => {},
                GodotMaterialProperty::MetallicTexture => {},
                GodotMaterialProperty::AmbientOcclusionTexture => {},
            }
        }
    }
    if property_of(filename) == Some(property) {
        assert forall|earlier: GodotMaterialProperty|
            earlier.rank() < property.rank() implies !contains(
            filename,
            #[trigger] earlier.hint(),
        ) by {
            match earlier {
                GodotMaterialProperty::AlbedoTexture => {},
                GodotMaterialProperty::NormalTexture => {},
                GodotMaterialProperty::HeightTexture => {},
                GodotMaterialProperty::RoughnessTexture => {},
                GodotMaterialProperty::MetallicTexture => {},
                GodotMaterialProperty::AmbientOcclusionTexture => {},
            }
        }
    }
}

/// A pattern that holds no dot, and that could not start inside `import`, is
/// found in a name that ends in `.import` exactly where it is found in the
/// name without that ending.
proof fn lemma_import_suffix_hides_nothing(name: Seq<char>, hint: Seq<char>)
    requires
        hint.len() > 0,
        forall|k: int| 0 <= k < hint.len() ==> hint[k] != '.',
        forall|d: int| 1 <= d && d + hint.len() <= 7 ==> hint[0] != ".import"@[d],
    ensures
        contains(name + ".import"@, hint) == contains(name, hint),
{
    reveal_strlit(".import");
    let suffix = ".import"@;
    let full = name + suffix;
    if contains(name, hint) {
        let at = choose|at: int| occurs_at(name, hint, at);
        assert(full.subrange(at, at + hint.len()) =~= name.subrange(at, at + hint.len()));
        assert(occurs_at(full, hint, at));
    }
    if contains(full, hint) {
        let at = choose|at: int| occurs_at(full, hint, at);
        let window = full.subrange(at, at + hint.len());
        if at + hint.len() > name.len() {
            if at <= name.len() {
                let k = name.len() - at;
                assert(hint[k] == '.');
            } else {
                let d = at - name.len();
                assert(hint[0] == suffix[d]);
            }
        }
        assert(name.subrange(at, at + hint.len()) =~= window);
        assert(occurs_at(name, hint, at));
    }
}

/// The `.import` file of a texture stands for the same property as the
/// texture: the ending `.import` holds no hint and completes none.
pub proof fn lemma_import_suffix_keeps_property(name: Seq<char>)
    ensures
        property_of(name + ".import"@) == property_of(name),
{
    reveal_strlit(".import");
    reveal_strlit("albedo");
    reveal_strlit("normal");
    reveal_strlit("height");
    reveal_strlit("roughness");
    reveal_strlit("metallic");
    reveal_strlit("_ao");
    lemma_import_suffix_hides_nothing(name, GodotMaterialProperty::AlbedoTexture.hint());
    lemma_import_suffix_hides_nothing(name, GodotMaterialProperty::NormalTexture.hint());
    lemma_import_suffix_hides_nothing(name, GodotMaterialProperty::HeightTexture.hint());
    lemma_import_suffix_hides_nothing(name, GodotMaterialProperty::RoughnessTexture.hint());
    lemma_import_suffix_hides_nothing(name, GodotMaterialProperty::MetallicTexture.hint());
    lemma_import_suffix_hides_nothing(name, GodotMaterialProperty::AmbientOcclusionTexture.hint());
}

/// Tells from a file name which property of the material the file fills, if
/// any. The name is the last part of a path, not the path.
pub fn get_godot_property(filename: &str) -> (property: Option<GodotMaterialProperty>)
    ensures
        property == property_of(filename@),
{
    if str_contains(filename, "albedo") {
        return Some(GodotMaterialProperty::AlbedoTexture);
    }
    if str_contains(filename, "normal") {
        return Some(GodotMaterialProperty::NormalTexture);
    }
    if str_contains(filename, "height") {
        return Some(GodotMaterialProperty::HeightTexture);
    }
    if str_contains(filename, "roughness") {
        return Some(GodotMaterialProperty::RoughnessTexture);
    }
    if str_contains(filename, "metallic") {
        return Some(GodotMaterialProperty::MetallicTexture);
    }
    if str_contains(filename, "_ao") {
        return Some(GodotMaterialProperty::AmbientOcclusionTexture);
    }
    None
}

} // verus!
