use dynlock::files::{candidates, find_file, is_wanted, pick, Candidate, FindError};

fn file(path: &str, extension: &str) -> Candidate {
    Candidate { path: path.to_string(), extension: extension.to_string() }
}

fn exts(list: &[&str]) -> Vec<String> {
    list.iter().map(|e| e.to_string()).collect()
}

#[test]
fn a_missing_path_finds_nothing() {
    assert_eq!(
        find_file("/nowhere".to_string(), false, None, &exts(&["glsl"])),
        Err(FindError::NoSuchFile)
    );
    assert_eq!(
        find_file("/nowhere".to_string(), false, Some(vec![file("/nowhere/a.glsl", "glsl")]), &exts(&["glsl"])),
        Err(FindError::NoSuchFile)
    );
}

#[test]
fn a_file_stands_for_itself() {
    assert_eq!(
        find_file("/shaders/a.frag".to_string(), true, None, &exts(&["glsl"])),
        Ok("/shaders/a.frag".to_string())
    );
}

#[test]
fn a_directory_stands_for_one_of_its_wanted_files() {
    let listing = vec![
        file("/bg/a.png", "png"),
        file("/bg/notes.txt", "txt"),
        file("/bg/b.jpg", "jpg"),
        file("/bg/c", ""),
        file("/bg/d.jpeg", "jpeg"),
    ];
    let wanted = exts(&["png", "jpg", "jpeg"]);
    let mut seen = std::collections::BTreeSet::new();
    for _ in 0..200 {
        let found = find_file("/bg".to_string(), true, Some(listing.clone()), &wanted)
            .expect("a file");
        assert!(found == "/bg/a.png" || found == "/bg/b.jpg" || found == "/bg/d.jpeg");
        seen.insert(found);
    }
    // with 200 draws among three files each one turns up
    assert_eq!(seen.len(), 3);
}

#[test]
fn a_directory_with_one_wanted_file_stands_for_it() {
    let listing = vec![file("/s/readme", ""), file("/s/only.glsl", "glsl")];
    for _ in 0..20 {
        assert_eq!(
            find_file("/s".to_string(), true, Some(listing.clone()), &exts(&["glsl"])),
            Ok("/s/only.glsl".to_string())
        );
    }
}

#[test]
fn a_directory_without_wanted_files_finds_nothing() {
    let listing = vec![file("/s/readme", ""), file("/s/a.txt", "txt")];
    assert_eq!(
        find_file("/s".to_string(), true, Some(listing), &exts(&["glsl"])),
        Err(FindError::NoFiles)
    );
    assert_eq!(
        find_file("/s".to_string(), true, Some(Vec::new()), &exts(&["glsl"])),
        Err(FindError::NoFiles)
    );
    assert_eq!(
        find_file("/s".to_string(), true, Some(vec![file("/s/a.glsl", "glsl")]), &Vec::new()),
        Err(FindError::NoFiles)
    );
}

#[test]
fn extensions_are_compared_exactly() {
    let wanted = exts(&["png", "jpg"]);
    assert!(is_wanted(&wanted, &"png".to_string()));
    assert!(is_wanted(&wanted, &"jpg".to_string()));
    assert!(!is_wanted(&wanted, &"PNG".to_string()));
    assert!(!is_wanted(&wanted, &"pn".to_string()));
    assert!(!is_wanted(&wanted, &"".to_string()));
}

#[test]
fn candidates_keep_the_directorys_order() {
    let listing = vec![file("b.glsl", "glsl"), file("x.txt", "txt"), file("a.glsl", "glsl")];
    assert_eq!(
        candidates(&listing, &exts(&["glsl"])),
        vec!["b.glsl".to_string(), "a.glsl".to_string()]
    );
}

#[test]
fn pick_takes_the_path_at_the_pick() {
    let paths = vec!["a".to_string(), "b".to_string(), "c".to_string()];
    assert_eq!(pick(paths.clone(), Some(0)), Ok("a".to_string()));
    assert_eq!(pick(paths.clone(), Some(2)), Ok("c".to_string()));
    assert_eq!(pick(paths.clone(), Some(3)), Err(FindError::NoFiles));
    assert_eq!(pick(paths, None), Err(FindError::NoFiles));
    assert_eq!(pick(Vec::new(), Some(0)), Err(FindError::NoFiles));
}
