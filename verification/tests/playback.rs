use memo_store::error::MemoError;
use memo_store::playback::{open, AudioFile};

fn file(name: &str, exists: bool) -> AudioFile {
    AudioFile {
        name: name.to_string(),
        path: format!("/memos/{}", name),
        exists,
    }
}

#[test]
fn playback_of_a_missing_file_plays_nothing_and_names_the_file() {
    let files = vec![file("a.wav", true), file("missing.wav", false)];
    assert_eq!(
        open(true, &files),
        Err(MemoError::FileNotFound("/memos/missing.wav".to_string()))
    );
}

#[test]
fn playback_names_the_first_of_several_missing_files() {
    let files = vec![
        file("a.wav", true),
        file("b.wav", false),
        file("c.wav", false),
    ];
    assert_eq!(
        open(true, &files),
        Err(MemoError::FileNotFound("/memos/b.wav".to_string()))
    );
}

#[test]
fn playback_starts_the_player_with_the_exit_flag_and_the_names() {
    let files = vec![file("a.wav", true), file("b.wav", true)];
    assert_eq!(
        open(true, &files),
        Ok(vec![
            "--play-and-exit".to_string(),
            "a.wav".to_string(),
            "b.wav".to_string()
        ])
    );
}

#[test]
fn playback_of_no_file_still_starts_the_player() {
    assert_eq!(open(true, &vec![]), Ok(vec!["--play-and-exit".to_string()]));
}

#[test]
fn playback_is_refused_on_another_operating_system() {
    let files = vec![file("a.wav", true)];
    assert_eq!(open(false, &files), Err(MemoError::Capability));
    let missing = vec![file("a.wav", false)];
    assert_eq!(open(false, &missing), Err(MemoError::Capability));
}
