use material::document::{
    generate_ext_resources, generate_header, generate_material, generate_resources,
    render_material, MATERIAL_UID_LENGTH,
};
use material::mapping::GodotMaterialMapping;
use material::property::GodotMaterialProperty;

#[test]
fn header_names_the_resource() {
    let mut text = String::new();
    generate_header(&mut text, "abcdefghijkl");
    assert_eq!(
        text,
        "[gd_resource type=\"StandardMaterial3D\" format=3 uid=\"uid://abcdefghijkl\"]\n\n"
    );
}

#[test]
fn header_is_appended() {
    let mut text = String::from("; before\n");
    generate_header(&mut text, "x");
    assert_eq!(
        text,
        "; before\n[gd_resource type=\"StandardMaterial3D\" format=3 uid=\"uid://x\"]\n\n"
    );
}

#[test]
fn one_declaration_for_each_texture() {
    let mapping = vec![
        GodotMaterialMapping::new(
            String::from("wall.png.import"),
            String::from("abc123"),
            String::from("res://wall_albedo.png"),
            GodotMaterialProperty::AlbedoTexture,
            1,
            "aaaaa",
        ),
        GodotMaterialMapping::new(
            String::from("wall.png.import"),
            String::from("def456"),
            String::from("res://wall_normal.png"),
            GodotMaterialProperty::NormalTexture,
            2,
            "bbbbb",
        ),
    ];
    let mut text = String::new();
    generate_ext_resources(&mut text, &mapping);
    assert_eq!(
        text,
        "[ext_resource type=\"Texture2D\" path=\"res://wall_albedo.png\" uid=\"uid://abc123\" id=\"1_aaaaa\"]\n\
         [ext_resource type=\"Texture2D\" path=\"res://wall_normal.png\" uid=\"uid://def456\" id=\"2_bbbbb\"]\n"
    );
}

#[test]
fn no_textures_no_declarations() {
    let mut text = String::from("kept");
    generate_ext_resources(&mut text, &Vec::new());
    assert_eq!(text, "kept");
}

#[test]
fn lines_of_each_property() {
    let cases = [
        (GodotMaterialProperty::AlbedoTexture, "\nalbedo_texture = ExtResource(\"1_t0k3n\")"),
        (
            GodotMaterialProperty::NormalTexture,
            "\nnormal_enabled = true\nnormal_texture = ExtResource(\"1_t0k3n\")",
        ),
        (
            GodotMaterialProperty::HeightTexture,
            "\nheightmap_enabled = true\nheightmap_texture = ExtResource(\"1_t0k3n\")",
        ),
        (
            GodotMaterialProperty::RoughnessTexture,
            "\nroughness_texture = ExtResource(\"1_t0k3n\")",
        ),
        (
            GodotMaterialProperty::MetallicTexture,
            "\nmetallic = 1.0\nmetallic_texture = ExtResource(\"1_t0k3n\")",
        ),
        (
            GodotMaterialProperty::AmbientOcclusionTexture,
            "\nao_enabled = true\nao_texture = ExtResource(\"1_t0k3n\")",
        ),
    ];
    for (property, lines) in cases {
        let mapping = vec![GodotMaterialMapping::new(
            String::from("wall.png.import"),
            String::from("u"),
            String::from("res://s.png"),
            property,
            1,
            "t0k3n",
        )];
        let mut text = String::new();
        generate_resources(&mut text, &mapping);
        assert_eq!(text, format!("\n[resource]{}", lines));
    }
}

#[test]
fn resource_block_without_textures() {
    let mut text = String::from("kept");
    generate_resources(&mut text, &Vec::new());
    assert_eq!(text, "kept\n[resource]");
}

#[test]
fn two_textures_of_one_property_both_get_their_lines() {
    let mapping = vec![
        GodotMaterialMapping::new(
            String::from("wall.png.import"),
            String::from("u1"),
            String::from("res://a_albedo.png"),
            GodotMaterialProperty::AlbedoTexture,
            1,
            "aaaaa",
        ),
        GodotMaterialMapping::new(
            String::from("wall.png.import"),
            String::from("u2"),
            String::from("res://b_albedo.png"),
            GodotMaterialProperty::AlbedoTexture,
            2,
            "bbbbb",
        ),
    ];
    let mut text = String::new();
    generate_resources(&mut text, &mapping);
    assert_eq!(
        text,
        "\n[resource]\nalbedo_texture = ExtResource(\"1_aaaaa\")\nalbedo_texture = ExtResource(\"2_bbbbb\")"
    );
}

#[test]
fn material_of_an_albedo_and_a_normal_texture() {
    let mapping = vec![
        GodotMaterialMapping::new(
            String::from("wall.png.import"),
            String::from("abc123"),
            String::from("res://wall_albedo.png"),
            GodotMaterialProperty::AlbedoTexture,
            1,
            "aaaaa",
        ),
        GodotMaterialMapping::new(
            String::from("wall.png.import"),
            String::from("def456"),
            String::from("res://wall_normal.png"),
            GodotMaterialProperty::NormalTexture,
            2,
            "bbbbb",
        ),
    ];
    let text = render_material("abcdefghijkl", &mapping);
    let expected = "[gd_resource type=\"StandardMaterial3D\" format=3 uid=\"uid://abcdefghijkl\"]\n\
\n\
[ext_resource type=\"Texture2D\" path=\"res://wall_albedo.png\" uid=\"uid://abc123\" id=\"1_aaaaa\"]\n\
[ext_resource type=\"Texture2D\" path=\"res://wall_normal.png\" uid=\"uid://def456\" id=\"2_bbbbb\"]\n\
\n\
[resource]\n\
albedo_texture = ExtResource(\"1_aaaaa\")\n\
normal_enabled = true\n\
normal_texture = ExtResource(\"2_bbbbb\")";
    assert_eq!(text, expected);
    assert_eq!(text.matches("[ext_resource ").count(), 2);
}

#[test]
fn material_of_all_six_properties_in_list_order() {
    let properties = [
        GodotMaterialProperty::AmbientOcclusionTexture,
        GodotMaterialProperty::MetallicTexture,
        GodotMaterialProperty::RoughnessTexture,
        GodotMaterialProperty::HeightTexture,
        GodotMaterialProperty::NormalTexture,
        GodotMaterialProperty::AlbedoTexture,
    ];
    let mut mapping = Vec::new();
    for (i, property) in properties.iter().enumerate() {
        mapping.push(GodotMaterialMapping::new(
            String::from("wall.png.import"),
            format!("uid{}", i),
            format!("res://t{}.png", i),
            *property,
            i + 1,
            "zzzzz",
        ));
    }
    let text = render_material("000000000000", &mapping);
    let expected = "[gd_resource type=\"StandardMaterial3D\" format=3 uid=\"uid://000000000000\"]\n\
\n\
[ext_resource type=\"Texture2D\" path=\"res://t0.png\" uid=\"uid://uid0\" id=\"1_zzzzz\"]\n\
[ext_resource type=\"Texture2D\" path=\"res://t1.png\" uid=\"uid://uid1\" id=\"2_zzzzz\"]\n\
[ext_resource type=\"Texture2D\" path=\"res://t2.png\" uid=\"uid://uid2\" id=\"3_zzzzz\"]\n\
[ext_resource type=\"Texture2D\" path=\"res://t3.png\" uid=\"uid://uid3\" id=\"4_zzzzz\"]\n\
[ext_resource type=\"Texture2D\" path=\"res://t4.png\" uid=\"uid://uid4\" id=\"5_zzzzz\"]\n\
[ext_resource type=\"Texture2D\" path=\"res://t5.png\" uid=\"uid://uid5\" id=\"6_zzzzz\"]\n\
\n\
[resource]\n\
ao_enabled = true\n\
ao_texture = ExtResource(\"1_zzzzz\")\n\
metallic = 1.0\n\
metallic_texture = ExtResource(\"2_zzzzz\")\n\
roughness_texture = ExtResource(\"3_zzzzz\")\n\
heightmap_enabled = true\n\
heightmap_texture = ExtResource(\"4_zzzzz\")\n\
normal_enabled = true\n\
normal_texture = ExtResource(\"5_zzzzz\")\n\
albedo_texture = ExtResource(\"6_zzzzz\")";
    assert_eq!(text, expected);
}

#[test]
fn material_without_textures() {
    assert_eq!(
        render_material("abcdefghijkl", &Vec::new()),
        "[gd_resource type=\"StandardMaterial3D\" format=3 uid=\"uid://abcdefghijkl\"]\n\n\n[resource]"
    );
}

#[test]
fn same_input_gives_the_same_text() {
    let build = || {
        vec![
            GodotMaterialMapping::new(
            String::from("wall.png.import"),
                String::from("abc123"),
                String::from("res://wall_metallic.png"),
                GodotMaterialProperty::MetallicTexture,
                1,
                "q1w2e",
            ),
            GodotMaterialMapping::new(
            String::from("wall.png.import"),
                String::from("def456"),
                String::from("res://wall_ao.png"),
                GodotMaterialProperty::AmbientOcclusionTexture,
                2,
                "r3t4y",
            ),
        ]
    };
    let first = render_material("m4t3r14lu1d0", &build());
    let second = render_material("m4t3r14lu1d0", &build());
    assert_eq!(first.as_bytes(), second.as_bytes());
    let other = render_material("m4t3r14lu1d1", &build());
    assert_ne!(first, other);
}

#[test]
fn fresh_material_differs_only_in_its_identifier() {
    assert_eq!(MATERIAL_UID_LENGTH, 12);
    let mapping = vec![GodotMaterialMapping::new(
            String::from("wall.png.import"),
        String::from("abc123"),
        String::from("res://wall_height.png"),
        GodotMaterialProperty::HeightTexture,
        1,
        "aaaaa",
    )];
    let text = generate_material(&mapping);
    let prefix = "[gd_resource type=\"StandardMaterial3D\" format=3 uid=\"uid://";
    assert!(text.starts_with(prefix));
    let uid = &text[prefix.len()..prefix.len() + 12];
    assert!(uid.chars().all(|c| c.is_ascii_lowercase() || c.is_ascii_digit()));
    assert_eq!(text, render_material(uid, &mapping));
}
