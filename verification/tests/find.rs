//! The search for the library.

use rkllm::find::{candidates, existing, multiarch_triples, Probe, Surroundings, LIBRARY_NAME};

/// An environment that says nothing.
fn nowhere() -> Surroundings {
    Surroundings {
        rkllm_lib: None,
        rkllm_lib_dir: None,
        ld_library_path: None,
        exe_dir: None,
        exe_dir_parent: None,
        arch: "aarch64".into(),
    }
}

fn texts(paths: Vec<Vec<u8>>) -> Vec<String> {
    paths.into_iter().map(|path| String::from_utf8(path).unwrap()).collect()
}

fn library_in(dir: &str) -> String {
    format!("{dir}/{LIBRARY_NAME}")
}

#[test]
fn the_explicit_variables_come_first() {
    let found = texts(candidates(&Surroundings {
        rkllm_lib: Some("/custom/librkllmrt.so".into()),
        rkllm_lib_dir: Some("/custom/dir".into()),
        ..nowhere()
    }));
    assert_eq!(found[0], "/custom/librkllmrt.so");
    assert_eq!(found[1], library_in("/custom/dir"));
}

#[test]
fn every_ld_library_path_entry_is_searched() {
    let found = texts(candidates(&Surroundings {
        ld_library_path: Some("/one:/two".into()),
        ..nowhere()
    }));
    assert!(found.contains(&library_in("/one")));
    assert!(found.contains(&library_in("/two")));
}

#[test]
fn the_system_directories_are_always_searched() {
    let found = texts(candidates(&nowhere()));
    assert!(found.contains(&library_in("/usr/lib")));
    assert!(found.contains(&library_in("/usr/local/lib")));
    let multiarch = library_in(&format!("/usr/lib/{}-linux-gnu", "aarch64"));
    assert!(found.contains(&multiarch));
}

/// A candidate with no file at it.
fn missing(path: &str) -> Probe {
    Probe { path: path.into(), is_file: false, canonical: None }
}

/// A candidate with a file at it.
fn file(path: &str, canonical: Option<&str>) -> Probe {
    Probe { path: path.into(), is_file: true, canonical: canonical.map(|path| path.into()) }
}

#[test]
fn missing_paths_are_left_out() {
    let found = existing(&[
        missing("/definitely/not/here/librkllmrt.so"),
        missing("/also/not/here"),
    ]);
    assert!(found.is_empty());
}

#[test]
fn a_file_reached_two_ways_is_yielded_once() {
    let real = "/tmp/rkllm-find/librkllmrt.so";
    // The same file by two names, plus a repeat of the first.
    let found = texts(existing(&[
        file(real, Some(real)),
        file("/tmp/rkllm-find/alias.so", Some(real)),
        file(real, Some(real)),
    ]));
    assert_eq!(found, vec![real], "the symlink resolves to the same file");
}

#[test]
fn directories_are_not_mistaken_for_the_library() {
    let dir = Probe {
        path: "/usr/lib".into(),
        is_file: false,
        canonical: Some("/usr/lib".into()),
    };
    let found = existing(&[dir]);
    assert!(found.is_empty(), "a directory is not the shared object");
}

#[test]
fn the_whole_search_runs_from_specific_to_general() {
    let found = texts(candidates(&Surroundings {
        rkllm_lib: Some("/a.so".into()),
        rkllm_lib_dir: Some("/b/".into()),
        ld_library_path: Some("/c::d".into()),
        exe_dir: Some("/app/bin".into()),
        exe_dir_parent: Some("/app".into()),
        arch: "arm".into(),
    }));
    assert_eq!(
        found,
        vec![
            "/a.so",
            "/b/librkllmrt.so",
            "/c/librkllmrt.so",
            "librkllmrt.so",
            "d/librkllmrt.so",
            "/app/bin/librkllmrt.so",
            "/app/bin/lib/librkllmrt.so",
            "/app/lib/librkllmrt.so",
            "librkllmrt.so",
            "/usr/lib/librkllmrt.so",
            "/usr/local/lib/librkllmrt.so",
            "/usr/lib64/librkllmrt.so",
            "/lib/librkllmrt.so",
            "/opt/rkllm/lib/librkllmrt.so",
            "/usr/lib/arm-linux-gnu/librkllmrt.so",
            "/usr/lib/arm-linux-gnueabihf/librkllmrt.so",
        ]
    );
}

#[test]
fn an_executable_at_the_root_has_nothing_above_it() {
    let found = texts(candidates(&Surroundings { exe_dir: Some("/".into()), ..nowhere() }));
    assert_eq!(found[..3], ["/librkllmrt.so", "/lib/librkllmrt.so", "librkllmrt.so"]);
}

#[test]
fn only_arm_has_a_second_triple() {
    assert_eq!(texts(multiarch_triples(b"x86_64")), vec!["x86_64-linux-gnu"]);
    assert_eq!(
        texts(multiarch_triples(b"arm")),
        vec!["arm-linux-gnu", "arm-linux-gnueabihf"]
    );
}

#[test]
fn a_file_that_cannot_be_resolved_goes_by_its_path() {
    let found = texts(existing(&[
        missing("/x"),
        file("/a", None),
        file("/b", Some("/a")),
        file("/c", None),
        file("/a", None),
    ]));
    assert_eq!(found, vec!["/a", "/c"]);
}

#[test]
fn unresolved_files_are_compared_component_by_component() {
    let found = texts(existing(&[
        file("/x//l", None),
        file("/x/l", None),
        file("/x/./l/", None),
        file("x/l", None),
        file("./x/l", None),
        file(".//x/./l", None),
        file("/x/../l", None),
        file("/x/l2", None),
    ]));
    assert_eq!(found, vec!["/x//l", "x/l", "./x/l", "/x/../l", "/x/l2"]);
}
