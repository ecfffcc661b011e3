use sonar::text::{
    corrected_word, custom_keys, finish_transcript, key, lengths_compatible, punctuation, remove_fillers, window_key,
    Window,
};
use sonar::text::Correction;
use sonar::words::normalize_whitespace;

/// Drives the library's correction pass the way a host does, scoring each
/// candidate with the normalized Levenshtein similarity, then finishes the
/// transcript with `finish_transcript`.
fn correct_and_finish(text: &str, custom_words: &[String], threshold: f64, filler_removal: bool, custom_fillers: &[String]) -> String {
    let corrected = if custom_words.is_empty() || threshold <= 0.0 {
        text.to_owned()
    } else {
        let keys = custom_keys(custom_words);
        let mut pass = Correction::start(text);
        while !pass.is_done() {
            let mut best: Option<(usize, usize, f64)> = None;
            for c in pass.candidates(&keys) {
                let distance = 1.0 - strsim::normalized_levenshtein(&c.candidate_key, &c.custom_key);
                if distance < threshold && best.map_or(true, |(_, _, d)| distance < d) {
                    best = Some((c.count, c.custom, distance));
                }
            }
            pass.apply(&keys, best.map(|(count, custom, _)| (count, custom)));
        }
        pass.finish()
    };
    finish_transcript(&corrected, filler_removal, custom_fillers)
}

#[test]
fn fuzzy_corrects_single_and_multiword_terms() {
    let custom = vec!["Sonar".to_owned(), "ChargeBee".to_owned()];
    assert_eq!(correct_and_finish("use soner and Charge B", &custom, 0.4, false, &[]), "use Sonar and ChargeBee");
}

#[test]
fn builtins_are_conservative_and_custom_list_overrides() {
    // Without custom words the correction pass leaves the text alone, so the
    // cleanup is `finish_transcript` itself.
    assert_eq!(finish_transcript("uh um continue", true, &[]), "um continue");
    assert_eq!(finish_transcript("uh okay continue", true, &["okay".to_owned()]), "uh continue");
}

#[test]
fn normalizes_whitespace_even_without_filtering() {
    assert_eq!(finish_transcript("  hello   world ", false, &[]), "hello world");
}

#[test]
fn fillers_are_matched_without_punctuation_or_case() {
    assert_eq!(remove_fillers("Uh, so... HMM! okay", true, &[]), "so... okay");
    assert_eq!(remove_fillers("хм ладно", true, &[]), "ладно");
    assert_eq!(remove_fillers("  keep   me ", false, &[]), "  keep   me ");
    assert_eq!(remove_fillers("Like, you know", true, &["LIKE".to_owned()]), "you know");
    assert_eq!(remove_fillers("uh uh", true, &[]), "");
}

#[test]
fn whitespace_normalization_is_idempotent() {
    let once = normalize_whitespace("\t a\u{00a0}b  \n c ");
    assert_eq!(once, "a b c");
    assert_eq!(normalize_whitespace(&once), once);
}

#[test]
fn keys_keep_lowercase_ascii_letters_and_digits() {
    assert_eq!(key("Charge-Bee 2!"), "chargebee2");
    assert_eq!(key("Ünïcode"), "ncode");
    assert_eq!(key(&key("Charge-Bee")), key("Charge-Bee"));
}

#[test]
fn punctuation_is_split_from_both_ends() {
    assert_eq!(punctuation("(soner),"), ("(".to_owned(), "),".to_owned()));
    assert_eq!(punctuation("plain"), (String::new(), String::new()));
    assert_eq!(punctuation("..."), ("...".to_owned(), "...".to_owned()));
    assert_eq!(corrected_word("(soner", "Sonar", "b)."), "(Sonar).");
}

#[test]
fn windows_and_keys_feed_the_matcher() {
    let words: Vec<String> = ["use", "Charge", "B", "!!"].iter().map(|w| w.to_string()).collect();
    match window_key(&words, 1, 2) {
        Window::Candidate(k) => assert_eq!(k, "chargeb"),
        _ => panic!("expected a candidate"),
    }
    assert!(matches!(window_key(&words, 3, 1), Window::Skipped));
    assert!(matches!(window_key(&words, 3, 2), Window::Outside));
    let long = vec!["a".repeat(51)];
    assert!(matches!(window_key(&long, 0, 1), Window::Skipped));
    let keys = custom_keys(&["Sonar".to_owned(), "--".to_owned(), "Charge Bee".to_owned()]);
    assert_eq!(keys.len(), 2);
    assert_eq!(keys[0].replacement, "Sonar");
    assert_eq!(keys[0].key, "sonar");
    assert_eq!(keys[1].key, "chargebee");
    assert!(lengths_compatible(7, 9));
    assert!(lengths_compatible(4, 2));
    assert!(lengths_compatible(1, 4));
    assert!(!lengths_compatible(1, 5));
}

#[test]
fn correction_pass_replaces_chosen_windows() {
    let keys = custom_keys(&["Sonar".to_owned(), "ChargeBee".to_owned()]);
    let mut pass = Correction::start("use soner and (Charge B),");
    assert_eq!(pass.words, vec!["use", "soner", "and", "(Charge", "B),"]);
    // position 0: "use" is kept
    pass.apply(&keys, None);
    // position 1: "soner" is close to "sonar"
    let candidates = pass.candidates(&keys);
    assert!(candidates.iter().any(|c| c.count == 1 && c.custom == 0 && c.candidate_key == "soner"));
    pass.apply(&keys, Some((1, 0)));
    pass.apply(&keys, None);
    // position 3: the two-word window "(Charge B)," becomes the custom word
    let candidates = pass.candidates(&keys);
    assert!(candidates.iter().any(|c| c.count == 2 && c.custom == 1 && c.candidate_key == "chargeb"));
    pass.apply(&keys, Some((2, 1)));
    assert!(pass.is_done());
    assert_eq!(pass.finish(), "use Sonar and (ChargeBee),");
}

#[test]
fn candidates_follow_window_then_list_order() {
    let keys = custom_keys(&["ab".to_owned(), "abcdefghij".to_owned()]);
    let words: Vec<String> = ["a", "b"].iter().map(|w| w.to_string()).collect();
    let cs = sonar::text::candidates_at(&words, &keys, 0);
    let pairs: Vec<(usize, usize)> = cs.iter().map(|c| (c.count, c.custom)).collect();
    assert_eq!(pairs, vec![(1, 0), (2, 0)]);
    assert_eq!(cs[1].candidate_key, "ab");
}
