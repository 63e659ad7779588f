use material::property::{get_godot_property, GodotMaterialProperty};
use material::sidecar::{extension_of, file_name_of, sidecar_path};
use material::text::{push_decimal, split_lines, str_contains};
use material::token::to_ascii_lowercase;

/// Every string over `alphabet` of at most `max_len` characters.
fn all_strings(alphabet: &[char], max_len: usize) -> Vec<String> {
    let mut all = vec![String::new()];
    let mut last = vec![String::new()];
    for _ in 0..max_len {
        let mut next = Vec::new();
        for s in &last {
            for c in alphabet {
                let mut longer = s.clone();
                longer.push(*c);
                next.push(longer);
            }
        }
        all.extend(next.iter().cloned());
        last = next;
    }
    all
}

#[test]
fn lines_agree_with_the_standard_library_on_all_short_texts() {
    for text in all_strings(&['a', '\n', '\r'], 7) {
        let expected: Vec<String> = text.lines().map(|line| line.to_owned()).collect();
        assert_eq!(split_lines(&text), expected, "{:?}", text);
    }
}

#[test]
fn contains_agrees_with_the_standard_library_on_all_short_texts() {
    let texts = all_strings(&['a', 'b'], 6);
    let patterns = all_strings(&['a', 'b'], 3);
    for text in &texts {
        for pattern in &patterns {
            assert_eq!(
                str_contains(text, pattern),
                text.contains(pattern.as_str()),
                "{:?} in {:?}",
                pattern,
                text
            );
        }
    }
}

#[test]
fn contains_agrees_with_the_standard_library_beyond_ascii() {
    let texts = all_strings(&['é', 'e', '€'], 4);
    let patterns = all_strings(&['é', 'e', '€'], 2);
    for text in &texts {
        for pattern in &patterns {
            assert_eq!(str_contains(text, pattern), text.contains(pattern.as_str()));
        }
    }
}

#[test]
fn extension_agrees_with_the_standard_library_on_all_short_names() {
    for name in all_strings(&['a', '.'], 7) {
        let path = std::path::Path::new(&name);
        let expected = path.extension().map(|ext| ext.to_str().unwrap().to_owned());
        assert_eq!(extension_of(&name), expected, "{:?}", name);
        let in_directory = format!("dir.d/{}", name);
        assert_eq!(extension_of(&in_directory), expected, "{:?}", in_directory);
    }
}

#[test]
fn sidecar_agrees_with_the_standard_library_on_all_short_names() {
    for name in all_strings(&['a', '.'], 7) {
        let path = std::path::Path::new(&name);
        let expected = path.extension().map(|ext| {
            let ext = ext.to_str().unwrap();
            if name.strip_suffix(ext) == Some("..") {
                // `with_extension` takes what is left of such a name for the
                // parent directory and adds nothing to it.
                format!("{}.import", name)
            } else {
                path.with_extension(format!("{}.import", ext)).to_str().unwrap().to_owned()
            }
        });
        assert_eq!(sidecar_path(&name), expected, "{:?}", name);
    }
}

#[test]
fn sidecar_of_a_name_that_starts_with_two_dots() {
    assert_eq!(sidecar_path("..a"), Some(String::from("..a.import")));
    assert_eq!(sidecar_path("out/..png"), Some(String::from("out/..png.import")));
}

#[test]
fn file_name_agrees_with_the_standard_library_on_paths_that_name_a_file() {
    for directory in all_strings(&['a', '/', '.'], 4) {
        for name in ["a", "a.b", ".a", "a.", "..."] {
            let text = if directory.is_empty() {
                String::from(name)
            } else {
                format!("{}/{}", directory, name)
            };
            let path = std::path::Path::new(&text);
            assert_eq!(
                file_name_of(&text),
                path.file_name().unwrap().to_str().unwrap(),
                "{:?}",
                text
            );
        }
    }
}

#[test]
fn decimal_agrees_with_the_standard_library() {
    let mut n: usize = 0;
    for _ in 0..2000 {
        let mut out = String::new();
        push_decimal(&mut out, n);
        assert_eq!(out, n.to_string());
        n = n.wrapping_mul(6364136223846793005).wrapping_add(1442695040888963407);
    }
}

#[test]
fn lowercase_agrees_with_the_standard_library_on_ascii() {
    let all: String = (0u8..128).map(|code| code as char).collect();
    assert_eq!(to_ascii_lowercase(&all), all.to_ascii_lowercase());
    assert_eq!(to_ascii_lowercase(&all), all.to_lowercase());
}

#[test]
fn property_follows_the_order_of_the_hints() {
    let hints = [
        ("albedo", GodotMaterialProperty::AlbedoTexture),
        ("normal", GodotMaterialProperty::NormalTexture),
        ("height", GodotMaterialProperty::HeightTexture),
        ("roughness", GodotMaterialProperty::RoughnessTexture),
        ("metallic", GodotMaterialProperty::MetallicTexture),
        ("_ao", GodotMaterialProperty::AmbientOcclusionTexture),
    ];
    for chosen in 0u32..64 {
        let mut forward = String::from("wall");
        let mut backward = String::from(".png");
        let mut expected = None;
        for (i, (hint, property)) in hints.iter().enumerate() {
            if chosen & (1 << i) != 0 {
                forward = format!("{}_{}", forward, hint);
                backward = format!("{}-{}", hint, backward);
                if expected.is_none() {
                    expected = Some(*property);
                }
            }
        }
        assert_eq!(get_godot_property(&forward), expected, "{}", forward);
        assert_eq!(get_godot_property(&backward), expected, "{}", backward);
    }
}
