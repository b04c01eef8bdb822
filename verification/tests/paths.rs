use easy_template::paths::{
    copy_destination, extension_dir_path, join_path, register_paths, template_dir_path,
    template_kind_dir, template_root,
};
use easy_template::names::{copy_file_name, get_file_extension, register_dir_name};

#[test]
fn join_adds_one_separator() {
    assert_eq!(join_path("/home/u", ".template"), "/home/u/.template");
    assert_eq!(join_path("/home/u/", ".template"), "/home/u/.template");
    assert_eq!(join_path("", ".template"), ".template");
    assert_eq!(join_path("/home/u", "/etc/x"), "/etc/x");
    assert_eq!(join_path("a", ""), "a/");
}

#[test]
fn template_paths() {
    assert_eq!(template_dir_path("/home/u"), "/home/u/.template");
    assert_eq!(template_dir_path(""), ".template");
    assert_eq!(extension_dir_path("/home/u", "txt"), "/home/u/.template/txt");
}

#[test]
fn register_source_and_destination() {
    let (source, destination) = register_paths("/work", "/home/u", "txt", "example.txt");
    assert_eq!(source, "/work/example.txt");
    assert_eq!(destination, "/home/u/.template/txt/example.txt");
}

#[test]
fn copy_goes_to_working_directory() {
    assert_eq!(copy_destination("/work", "/home/u/.template/txt/file3.txt", ""), "/work/template.txt");
    assert_eq!(copy_destination("/work", "/home/u/.template/txt/file3.txt", "a"), "/work/a.txt");
}

#[test]
fn template_root_is_below_a_home() {
    if let Some(root) = template_root() {
        assert!(root.ends_with(".template"));
    }
}

#[test]
fn law_registered_copy_keeps_extension_on_examples() {
    for file in ["example.txt", "a.b.rs", "x."] {
        let dir = register_dir_name(file);
        let (_, stored) = register_paths("/work", "/home/u", &dir, file);
        for typed in ["", "new", "n.e.w"] {
            let copied = copy_file_name(&stored, typed);
            assert_eq!(get_file_extension(copied), get_file_extension(file.to_string()));
        }
    }
}

#[test]
fn template_kind_dir_is_below_a_home() {
    if let Some(dir) = template_kind_dir("rs") {
        assert!(dir.ends_with(".template/rs"));
    }
}
