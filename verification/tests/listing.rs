//! Behaviour of the directory lister on concrete enumerations.

use dirlist::entry::Entry;
use dirlist::error::ListError;
use dirlist::lister::read_dir;
use dirlist::probe::{ChildProbe, DirProbe, RawChild, TypeProbe};

fn child(name: &str, path: &str, kind: TypeProbe) -> ChildProbe {
    ChildProbe::Found(RawChild {
        name: name.as_bytes().to_vec(),
        path: path.as_bytes().to_vec(),
        kind,
    })
}

fn mixed_directory() -> Vec<ChildProbe> {
    vec![
        child("a.txt", "/d/a.txt", TypeProbe::NotDirectory),
        child(".hidden", "/d/.hidden", TypeProbe::NotDirectory),
        child("sub", "/d/sub", TypeProbe::Directory),
    ]
}

#[test]
fn empty_directory_lists_nothing() {
    let res = read_dir(DirProbe::Opened(vec![]), false);
    assert_eq!(res, Ok(vec![]));
}

#[test]
fn filter_excludes_hidden_entries() {
    let entries = read_dir(DirProbe::Opened(mixed_directory()), false).unwrap();
    assert_eq!(entries.len(), 2);

    assert_eq!(entries[0].name, "a.txt");
    assert_eq!(entries[0].path, "/d/a.txt");
    assert!(!entries[0].is_dir);
    assert_eq!(entries[0].children, None);

    assert_eq!(entries[1].name, "sub");
    assert_eq!(entries[1].path, "/d/sub");
    assert!(entries[1].is_dir);
    assert_eq!(entries[1].children, Some(vec![]));
}

#[test]
fn show_hidden_includes_every_child() {
    let entries = read_dir(DirProbe::Opened(mixed_directory()), true).unwrap();
    assert_eq!(entries.len(), 3);

    assert_eq!(entries[0].name, "a.txt");
    assert_eq!(entries[1].name, ".hidden");
    assert_eq!(entries[1].path, "/d/.hidden");
    assert!(!entries[1].is_dir);
    assert_eq!(entries[1].children, None);
    assert_eq!(entries[2].name, "sub");
}

#[test]
fn directory_entry_has_empty_children_file_entry_has_none() {
    let entries = read_dir(DirProbe::Opened(mixed_directory()), true).unwrap();
    for e in &entries {
        if e.is_dir {
            assert_eq!(e.children, Some(vec![]));
        } else {
            assert_eq!(e.children, None);
        }
    }
}

#[test]
fn listing_twice_yields_the_same_entries() {
    let once = read_dir(DirProbe::Opened(mixed_directory()), false).unwrap();
    let again = read_dir(DirProbe::Opened(mixed_directory()), false).unwrap();
    assert_eq!(once, again);
}

#[test]
fn enumeration_order_only_permutes_the_entries() {
    let mut reordered = mixed_directory();
    reordered.reverse();
    let mut out1 = read_dir(DirProbe::Opened(mixed_directory()), true).unwrap();
    let mut out2 = read_dir(DirProbe::Opened(reordered), true).unwrap();
    out1.sort_by(|a, b| a.name.cmp(&b.name));
    out2.sort_by(|a, b| a.name.cmp(&b.name));
    assert_eq!(out1, out2);
}

#[test]
fn open_failure_is_an_io_failure() {
    let res = read_dir(
        DirProbe::OpenFailed("No such file or directory (os error 2)".to_string()),
        true,
    );
    assert_eq!(
        res,
        Err(ListError::IoFailure(
            "No such file or directory (os error 2)".to_string()
        ))
    );
}

#[test]
fn opening_a_file_instead_of_a_directory_is_an_io_failure() {
    let res = read_dir(
        DirProbe::OpenFailed("Not a directory (os error 20)".to_string()),
        false,
    );
    assert_eq!(
        res,
        Err(ListError::IoFailure("Not a directory (os error 20)".to_string()))
    );
}

#[test]
fn undecodable_name_discards_every_entry() {
    let probe = DirProbe::Opened(vec![
        child("a.txt", "/d/a.txt", TypeProbe::NotDirectory),
        ChildProbe::Found(RawChild {
            name: vec![0xff, 0x61],
            path: "/d/?".as_bytes().to_vec(),
            kind: TypeProbe::NotDirectory,
        }),
        child("sub", "/d/sub", TypeProbe::Directory),
    ]);
    assert_eq!(read_dir(probe, true), Err(ListError::InvalidEncoding));
}

#[test]
fn undecodable_path_discards_every_entry() {
    let probe = DirProbe::Opened(vec![ChildProbe::Found(RawChild {
        name: "a.txt".as_bytes().to_vec(),
        path: vec![0x2f, 0x64, 0x2f, 0xc3],
        kind: TypeProbe::NotDirectory,
    })]);
    assert_eq!(read_dir(probe, true), Err(ListError::InvalidEncoding));
}

#[test]
fn fault_during_enumeration_aborts_with_io_failure() {
    let probe = DirProbe::Opened(vec![
        child("a.txt", "/d/a.txt", TypeProbe::NotDirectory),
        ChildProbe::Fault("Input/output error (os error 5)".to_string()),
        child("sub", "/d/sub", TypeProbe::Directory),
    ]);
    assert_eq!(
        read_dir(probe, true),
        Err(ListError::IoFailure("Input/output error (os error 5)".to_string()))
    );
}

#[test]
fn file_type_failure_aborts_with_io_failure() {
    let probe = DirProbe::Opened(vec![child(
        "a.txt",
        "/d/a.txt",
        TypeProbe::Failed("Permission denied (os error 13)".to_string()),
    )]);
    assert_eq!(
        read_dir(probe, false),
        Err(ListError::IoFailure("Permission denied (os error 13)".to_string()))
    );
}

#[test]
fn file_type_of_a_filtered_child_is_never_consulted() {
    let probe = DirProbe::Opened(vec![
        child(
            ".hidden",
            "/d/.hidden",
            TypeProbe::Failed("Permission denied (os error 13)".to_string()),
        ),
        child("a.txt", "/d/a.txt", TypeProbe::NotDirectory),
    ]);
    let entries = read_dir(probe, false).unwrap();
    assert_eq!(entries.len(), 1);
    assert_eq!(entries[0].name, "a.txt");
}

#[test]
fn multibyte_names_are_decoded() {
    let probe = DirProbe::Opened(vec![ChildProbe::Found(RawChild {
        name: vec![0x63, 0x61, 0x66, 0xc3, 0xa9],
        path: "/d/caf\u{e9}".as_bytes().to_vec(),
        kind: TypeProbe::NotDirectory,
    })]);
    let entries = read_dir(probe, true).unwrap();
    assert_eq!(entries[0].name, "caf\u{e9}");
    assert_eq!(entries[0].path, "/d/caf\u{e9}");
}

#[test]
fn dot_alone_counts_as_hidden() {
    let probe = DirProbe::Opened(vec![
        child(".", "/d/.", TypeProbe::Directory),
        child("b", "/d/b", TypeProbe::NotDirectory),
    ]);
    let entries = read_dir(probe, false).unwrap();
    assert_eq!(entries.len(), 1);
    assert_eq!(entries[0].name, "b");

    let all: Vec<Entry> = read_dir(
        DirProbe::Opened(vec![
            child(".", "/d/.", TypeProbe::Directory),
            child("b", "/d/b", TypeProbe::NotDirectory),
        ]),
        true,
    )
    .unwrap();
    assert_eq!(all.len(), 2);
}
