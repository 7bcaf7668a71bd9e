use render::shader::{expand_shader, include_target, includes_of};

fn files(entries: &[(&str, &str)]) -> Vec<(String, String)> {
    entries.iter().map(|(n, c)| (n.to_string(), c.to_string())).collect()
}

#[test]
fn test_shader_src() {
    let files = files(&[
        (
            "../tests/test_shader.wgsl",
            "//# include first_dependency.wgsl\nfn main() { }\n",
        ),
        (
            "first_dependency.wgsl",
            "//# include second_dependency.wgsl\nfn first_dependency() { }\n",
        ),
        ("second_dependency.wgsl", "fn second_dependency() { }\n"),
    ]);
    let src = expand_shader(&files, "../tests/test_shader.wgsl").unwrap();
    assert_eq!(
        "fn second_dependency() { }\nfn first_dependency() { }\nfn main() { }",
        src.trim()
    );
}

#[test]
fn shader_without_includes_keeps_its_lines() {
    let files = files(&[("a.wgsl", "fn a() { }\r\nfn b() { }\n")]);
    assert_eq!(expand_shader(&files, "a.wgsl").unwrap(), "fn a() { }\nfn b() { }");
}

#[test]
fn shader_include_name_is_trimmed() {
    let files = files(&[
        ("main.wgsl", "//# include   dep.wgsl \t\nfn main() { }"),
        ("dep.wgsl", "fn dep() { }"),
    ]);
    assert_eq!(
        expand_shader(&files, "main.wgsl").unwrap(),
        "fn dep() { }\nfn main() { }"
    );
}

#[test]
fn shader_missing_include_is_none() {
    let files = files(&[("main.wgsl", "//# include nowhere.wgsl\nfn main() { }")]);
    assert!(expand_shader(&files, "main.wgsl").is_none());
    assert!(expand_shader(&files, "other.wgsl").is_none());
}

#[test]
fn shader_include_cycle_is_none() {
    let files = files(&[
        ("a.wgsl", "//# include b.wgsl"),
        ("b.wgsl", "//# include a.wgsl"),
    ]);
    assert!(expand_shader(&files, "a.wgsl").is_none());
}

#[test]
fn shader_same_file_included_twice() {
    let files = files(&[
        ("main.wgsl", "//# include common.wgsl\n//# include common.wgsl\nx"),
        ("common.wgsl", "c"),
    ]);
    assert_eq!(expand_shader(&files, "main.wgsl").unwrap(), "c\nc\nx");
}

#[test]
fn shader_include_line_parsing() {
    assert_eq!(include_target("//# include foo.wgsl").unwrap(), "foo.wgsl");
    assert_eq!(include_target("//# include  bar.wgsl  ").unwrap(), "bar.wgsl");
    assert!(include_target("// include foo.wgsl").is_none());
    assert!(include_target("  //# include foo.wgsl").is_none());
    assert_eq!(include_target("//# include ").unwrap(), "");
}

#[test]
fn shader_lists_includes_in_order() {
    let deps = includes_of("//# include a.wgsl\nfn f() { }\n//# include b.wgsl\n");
    assert_eq!(deps, vec!["a.wgsl".to_string(), "b.wgsl".to_string()]);
}
