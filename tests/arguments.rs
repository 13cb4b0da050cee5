use unsplash_fetch::args::Arguments;
use unsplash_fetch::Failure;

fn line(words: &[&str]) -> Vec<String> {
    words.iter().map(|w| w.to_string()).collect()
}

#[test]
fn no_seed_draws_a_default_keyword() {
    for _ in 0..50 {
        let a = Arguments::new(&line(&["prog"])).ok().unwrap();
        assert!(["Poker", "Nature", "Science", "Animals"].contains(&a.seed.as_str()));
        assert_eq!(a.filename, "example.png");
    }
}

#[test]
fn empty_command_line_draws_a_default_keyword() {
    let a = Arguments::new(&Vec::new()).ok().unwrap();
    assert!(["Poker", "Nature", "Science", "Animals"].contains(&a.seed.as_str()));
    assert_eq!(a.filename, "example.png");
}

#[test]
fn fallback_seed_is_used_without_arguments() {
    let a = Arguments::resolve(&line(&["prog"]), "Rivers").ok().unwrap();
    assert_eq!(a.seed, "Rivers");
    assert_eq!(a.filename, "example.png");
}

#[test]
fn dash_h_requests_help() {
    assert_eq!(Arguments::new(&line(&["prog", "-h"])).err(), Some(Failure::HelpRequested));
}

#[test]
fn dash_help_alone_requests_help() {
    assert_eq!(Arguments::new(&line(&["prog", "-help"])).err(), Some(Failure::HelpRequested));
}

#[test]
fn dash_h_anywhere_in_first_argument_requests_help_with_a_path() {
    let r = Arguments::new(&line(&["prog", "cat-house", "out.png"]));
    assert_eq!(r.err(), Some(Failure::HelpRequested));
}

#[test]
fn seed_alone_uses_default_filename() {
    let a = Arguments::new(&line(&["prog", "Mountains"])).ok().unwrap();
    assert_eq!(a.seed, "Mountains");
    assert_eq!(a.filename, "example.png");
}

#[test]
fn seed_and_path_are_taken_verbatim() {
    let a = Arguments::new(&line(&["prog", "Mountains", "peak shot.jpg"])).ok().unwrap();
    assert_eq!(a.seed, "Mountains");
    assert_eq!(a.filename, "peak shot.jpg");
}

#[test]
fn empty_path_falls_back_to_default_filename() {
    let a = Arguments::new(&line(&["prog", "Mountains", ""])).ok().unwrap();
    assert_eq!(a.seed, "Mountains");
    assert_eq!(a.filename, "example.png");
}

#[test]
fn extra_arguments_are_ignored() {
    let a = Arguments::new(&line(&["prog", "Sea", "sea.png", "more"])).ok().unwrap();
    assert_eq!(a.seed, "Sea");
    assert_eq!(a.filename, "sea.png");
}
