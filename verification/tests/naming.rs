use friday::naming::{
    date_stamp, next_recording_path, recording_wav_path, segment_file, MediaListing,
};

fn names(list: &[&str]) -> Vec<String> {
    list.iter().map(|name| name.to_string()).collect()
}

#[test]
fn recording_filename_uses_date_and_next_number() {
    let media = names(&["20260726_001.wav", "20260726_003.wav"]);
    assert_eq!(
        next_recording_path("media", &media, "20260726").unwrap(),
        "20260726_004.wav"
    );
}

#[test]
fn the_first_recording_of_a_day_is_number_one() {
    assert_eq!(
        next_recording_path("media", &names(&[]), "20260726").unwrap(),
        "20260726_001.wav"
    );
    assert_eq!(
        next_recording_path("media", &names(&["20260725_009.wav"]), "20260726").unwrap(),
        "20260726_001.wav"
    );
}

#[test]
fn numbers_outgrow_their_three_digits() {
    assert_eq!(
        next_recording_path("media", &names(&["20260726_999.wav"]), "20260726").unwrap(),
        "20260726_1000.wav"
    );
}

#[test]
fn other_files_do_not_count() {
    let media = names(&[
        "20260726_007.WAV",
        "20260726_.wav",
        "20260726_-5.wav",
        "20260726_8x.wav",
        "20260726_9.mp3",
        "20260726_4294967296.wav",
        "20260726_002.part-0.wav",
        "20260726_+.wav",
        "20260726_ 6.wav",
        "x20260726_5.wav",
        "20260726.wav",
        "",
    ]);
    assert_eq!(
        next_recording_path("media", &media, "20260726").unwrap(),
        "20260726_001.wav"
    );
}

#[test]
fn signed_and_padded_numbers_count() {
    assert_eq!(
        next_recording_path("media", &names(&["20260726_+12.wav"]), "20260726").unwrap(),
        "20260726_013.wav"
    );
    assert_eq!(
        next_recording_path("media", &names(&["20260726_00000000000000020.wav"]), "20260726")
            .unwrap(),
        "20260726_021.wav"
    );
}

#[test]
fn the_name_and_the_extension_may_not_overlap() {
    assert_eq!(
        next_recording_path("media", &names(&["a.wa_v", "a.wav"]), "a.wav").unwrap(),
        "a.wav_001.wav"
    );
}

#[test]
fn used_up_numbers_are_an_error() {
    assert_eq!(
        next_recording_path("/opt/media", &names(&["20260726_4294967295.wav"]), "20260726"),
        Err("recording number overflow in /opt/media".to_string())
    );
    assert_eq!(
        next_recording_path("media", &names(&["20260726_4294967294.wav"]), "20260726").unwrap(),
        "20260726_4294967295.wav"
    );
}

#[test]
fn a_new_recording_is_not_among_the_files() {
    let mut media = names(&["20260726_2.wav", "20260726_01.wav", "notes.txt"]);
    for _ in 0..12 {
        let next = next_recording_path("media", &media, "20260726").unwrap();
        assert!(!media.contains(&next));
        media.push(next);
    }
    assert_eq!(media.last().unwrap(), "20260726_014.wav");
}

#[test]
fn media_trouble_is_told() {
    let date = "20260726";
    assert_eq!(
        recording_wav_path(&MediaListing::NoExecutable("gone".to_string()), date),
        Err("cannot locate executable: gone".to_string())
    );
    assert_eq!(
        recording_wav_path(&MediaListing::NoDirectory, date),
        Err("executable directory is missing".to_string())
    );
    let listing = MediaListing::NotCreated {
        media: "/opt/media".to_string(),
        error: "denied".to_string(),
    };
    assert_eq!(
        recording_wav_path(&listing, date),
        Err("cannot create /opt/media: denied".to_string())
    );
    let listing = MediaListing::NotReadable {
        media: "/opt/media".to_string(),
        error: "denied".to_string(),
    };
    assert_eq!(
        recording_wav_path(&listing, date),
        Err("cannot read /opt/media: denied".to_string())
    );
    let listing = MediaListing::Files {
        media: "/opt/media".to_string(),
        names: names(&["20260726_041.wav"]),
    };
    assert_eq!(
        recording_wav_path(&listing, date),
        Ok("20260726_042.wav".to_string())
    );
}

#[test]
fn days_are_written_without_separators() {
    assert_eq!(date_stamp(2026, 7, 26), Some("20260726".to_string()));
    assert_eq!(date_stamp(33, 1, 2), Some("00330102".to_string()));
    assert_eq!(date_stamp(0, 12, 31), Some("00001231".to_string()));
    assert_eq!(date_stamp(9999, 12, 31), Some("99991231".to_string()));
    assert_eq!(date_stamp(10000, 1, 1), Some("+100000101".to_string()));
    assert_eq!(date_stamp(-1, 1, 1), Some("-00010101".to_string()));
    assert_eq!(date_stamp(-262143, 1, 1), Some("-2621430101".to_string()));
    assert_eq!(date_stamp(262142, 12, 31), Some("+2621421231".to_string()));
}

#[test]
fn days_off_the_calendar_have_no_date() {
    assert_eq!(date_stamp(2023, 2, 29), None);
    assert_eq!(date_stamp(1900, 2, 29), None);
    assert!(date_stamp(2000, 2, 29).is_some());
    assert!(date_stamp(2024, 2, 29).is_some());
    assert_eq!(date_stamp(2026, 4, 31), None);
    assert_eq!(date_stamp(2026, 13, 1), None);
    assert_eq!(date_stamp(2026, 0, 1), None);
    assert_eq!(date_stamp(2026, 1, 0), None);
    assert_eq!(date_stamp(2026, 1, 32), None);
    assert_eq!(date_stamp(262143, 1, 1), None);
    assert_eq!(date_stamp(-262144, 12, 31), None);
}

#[test]
fn the_calendar_agrees_day_by_day() {
    for year in [-5, -4, 0, 1899, 1900, 2000, 2023, 2024, 2100] {
        for month in 0..14 {
            for day in 0..33 {
                let date = chrono::NaiveDate::from_ymd_opt(year, month, day);
                let text = date.map(|date| date.format("%Y%m%d").to_string());
                assert_eq!(date_stamp(year, month, day), text);
            }
        }
    }
}

#[test]
fn segments_are_named_after_their_recording() {
    assert_eq!(
        segment_file("20260726_004.wav", 0),
        "20260726_004.part-0.wav"
    );
    assert_eq!(
        segment_file("20260726_004.wav", 12),
        "20260726_004.part-12.wav"
    );
}

#[test]
fn segment_names_replace_the_extension_as_paths_do() {
    let samples = [
        "a.wav", "a.b.wav", "noext", ".hidden", "a.", "", ".", "..", "...", "\u{e9}t\u{e9}.wav",
        "..a", "..abc", "...a", "....", "..a.b", ".a.b", "a..", "a..b", ".a.", "a.b\\c", " .x",
    ];
    for name in samples {
        let path = std::path::Path::new(name).with_extension("part-3.wav");
        assert_eq!(segment_file(name, 3), path.to_str().unwrap());
    }
}
