use material::property::{get_godot_property, GodotMaterialProperty};

#[test]
fn each_hint_gives_its_property() {
    assert_eq!(get_godot_property("wall_albedo.png"), Some(GodotMaterialProperty::AlbedoTexture));
    assert_eq!(get_godot_property("wall_normal.png"), Some(GodotMaterialProperty::NormalTexture));
    assert_eq!(get_godot_property("wall_height.png"), Some(GodotMaterialProperty::HeightTexture));
    assert_eq!(
        get_godot_property("wall_roughness.png"),
        Some(GodotMaterialProperty::RoughnessTexture)
    );
    assert_eq!(
        get_godot_property("wall_metallic.png"),
        Some(GodotMaterialProperty::MetallicTexture)
    );
    assert_eq!(
        get_godot_property("wall_ao.png"),
        Some(GodotMaterialProperty::AmbientOcclusionTexture)
    );
}

#[test]
fn albedo_wins_over_normal() {
    assert_eq!(
        get_godot_property("normal_and_albedo.png"),
        Some(GodotMaterialProperty::AlbedoTexture)
    );
    assert_eq!(
        get_godot_property("albedo_normal.png"),
        Some(GodotMaterialProperty::AlbedoTexture)
    );
}

#[test]
fn earlier_hint_wins_whatever_its_place_in_the_name() {
    assert_eq!(
        get_godot_property("height_normal.png"),
        Some(GodotMaterialProperty::NormalTexture)
    );
    assert_eq!(
        get_godot_property("metallic_roughness.png"),
        Some(GodotMaterialProperty::RoughnessTexture)
    );
    assert_eq!(
        get_godot_property("stone_ao_metallic.png"),
        Some(GodotMaterialProperty::MetallicTexture)
    );
    assert_eq!(
        get_godot_property("_ao_height_roughness"),
        Some(GodotMaterialProperty::HeightTexture)
    );
}

#[test]
fn wood_ao_is_ambient_occlusion() {
    assert_eq!(
        get_godot_property("wood_ao.png"),
        Some(GodotMaterialProperty::AmbientOcclusionTexture)
    );
}

#[test]
fn chaos_has_no_property() {
    assert_eq!(get_godot_property("chaos.png"), None);
}

#[test]
fn bare_ao_is_no_hint() {
    assert_eq!(get_godot_property("ao.png"), None);
    assert_eq!(get_godot_property("wood-ao.png"), None);
    assert_eq!(get_godot_property("_a_o.png"), None);
}

#[test]
fn hints_regard_case() {
    assert_eq!(get_godot_property("Wall_Albedo.png"), None);
    assert_eq!(get_godot_property("WALL_NORMAL.PNG"), None);
    assert_eq!(get_godot_property("wall_AO.png"), None);
}

#[test]
fn name_without_hint_has_no_property() {
    assert_eq!(get_godot_property(""), None);
    assert_eq!(get_godot_property("wall.png"), None);
    assert_eq!(get_godot_property("albed.png"), None);
    assert_eq!(get_godot_property("norma_l.png"), None);
}

#[test]
fn hint_may_stand_anywhere_in_the_name() {
    assert_eq!(get_godot_property("albedo"), Some(GodotMaterialProperty::AlbedoTexture));
    assert_eq!(get_godot_property("xxalbedo"), Some(GodotMaterialProperty::AlbedoTexture));
    assert_eq!(get_godot_property("albedoxx"), Some(GodotMaterialProperty::AlbedoTexture));
    assert_eq!(
        get_godot_property("wall_roughness.png.import"),
        Some(GodotMaterialProperty::RoughnessTexture)
    );
    assert_eq!(
        get_godot_property("x_ao"),
        Some(GodotMaterialProperty::AmbientOcclusionTexture)
    );
}

#[test]
fn names_beyond_ascii_are_searched_by_character() {
    assert_eq!(
        get_godot_property("mur_é_normal.png"),
        Some(GodotMaterialProperty::NormalTexture)
    );
    assert_eq!(get_godot_property("mur_é.png"), None);
}

#[test]
fn import_file_stands_for_the_property_of_its_texture() {
    let names = [
        "wall_albedo.png",
        "wall_normal.png",
        "wall_height.png",
        "wall_roughness.png",
        "wall_metallic.png",
        "wall_ao.png",
        "chaos.png",
        "wall.png",
        "normal_albedo",
        "rough",
        "metallic",
        "_a",
        "_ao",
        "heigh",
        "",
    ];
    for name in names {
        assert_eq!(
            get_godot_property(&format!("{}.import", name)),
            get_godot_property(name),
            "{}",
            name
        );
    }
}
