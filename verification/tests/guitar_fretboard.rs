use physics_instruments::guitar::fretboard::FretboardRouter;

#[test]
fn test_fretboard_routing_and_mpe() {
    let router = FretboardRouter::new();
    let strings_held = [false; 6];

    // Note 40 (E2) should map to String 6, fret 0
    let loc_e2 = router.allocate_note(40, &strings_held).expect("Should allocate E2");
    assert_eq!(loc_e2.string_index, 6);
    assert_eq!(loc_e2.fret, 0);

    // Note 60 (C4) can be played on String 2 (fret 1)
    let loc_c4 = router.allocate_note(60, &strings_held).expect("Should allocate C4");
    assert_eq!(loc_c4.string_index, 2);
    assert_eq!(loc_c4.fret, 1);

    // MPE Routing: Channel 2 is String 1, Channel 7 is String 6
    let mpe_loc = router.allocate_mpe_note(2, 64).expect("MPE Channel 2 should allocate String 1");
    assert_eq!(mpe_loc.string_index, 1);
    assert_eq!(mpe_loc.fret, 0);

    let mpe_loc_s6 = router.allocate_mpe_note(7, 45).expect("MPE Channel 7 should allocate String 6");
    assert_eq!(mpe_loc_s6.string_index, 6);
    assert_eq!(mpe_loc_s6.fret, 5); // E2 + 5 semitones = A2
}

#[test]
fn test_allocate_note_out_of_range() {
    let router = FretboardRouter::new();
    let held = [false; 6];
    // Below low E and above the 24th fret of high E
    assert_eq!(router.allocate_note(39, &held), None);
    assert_eq!(router.allocate_note(89, &held), None);
    // Highest playable note: high E at fret 24
    let top = router.allocate_note(88, &held).unwrap();
    assert_eq!((top.string_index, top.fret), (1, 24));
}

#[test]
fn test_allocate_note_avoids_held_string() {
    let router = FretboardRouter::new();
    // E4 (64) is open on string 1; with string 1 held it moves to string 2, fret 5
    let mut held = [false; 6];
    held[0] = true;
    let loc = router.allocate_note(64, &held).unwrap();
    assert_eq!((loc.string_index, loc.fret), (2, 5));
    // With every string held the cheapest held string is still chosen
    let all = [true; 6];
    let loc = router.allocate_note(64, &all).unwrap();
    assert_eq!((loc.string_index, loc.fret), (1, 0));
}

#[test]
fn test_allocate_note_tie_goes_to_lower_string() {
    let mut router = FretboardRouter::new();
    router.hand_position = 5;
    let held = [false; 6];
    // B3 (59): string 2 fret 0 (distance 5) vs string 3 fret 4 (distance 1)
    let loc = router.allocate_note(59, &held).unwrap();
    assert_eq!((loc.string_index, loc.fret), (3, 4));
    // A3 (57): string 3 fret 2 (distance 3) and string 4 fret 7 (distance 2)
    let loc = router.allocate_note(57, &held).unwrap();
    assert_eq!((loc.string_index, loc.fret), (4, 7));
    // D3 (50) with hand at 5: string 4 fret 0 (5) vs string 5 fret 5 (0)
    let loc = router.allocate_note(50, &held).unwrap();
    assert_eq!((loc.string_index, loc.fret), (5, 5));
    router.hand_position = 2;
    // E3 (52): string 4 fret 2 (0), string 5 fret 7 (5), string 6 fret 12 (10)
    let loc = router.allocate_note(52, &held).unwrap();
    assert_eq!((loc.string_index, loc.fret), (4, 2));
    // Tie: B3 (59) is string 2 fret 0 or string 3 fret 4, both 2 frets from
    // the hand; the lower string index wins
    let loc = router.allocate_note(59, &held).unwrap();
    assert_eq!((loc.string_index, loc.fret), (2, 0));
}

#[test]
fn test_mpe_rejects_other_channels_and_unplayable_notes() {
    let router = FretboardRouter::new();
    assert_eq!(router.allocate_mpe_note(1, 64), None);
    assert_eq!(router.allocate_mpe_note(8, 64), None);
    // Channel 2 is high E (64): 63 is below, 89 is past fret 24
    assert_eq!(router.allocate_mpe_note(2, 63), None);
    assert_eq!(router.allocate_mpe_note(2, 89), None);
    let top = router.allocate_mpe_note(2, 88).unwrap();
    assert_eq!((top.string_index, top.fret), (1, 24));
}

#[test]
fn test_route_note_dispatch() {
    let router = FretboardRouter::new();
    let held = [false; 6];
    // Channel 1 uses the allocator: 64 on string 1, fret 0
    let loc = router.route_note(1, 64, &held).unwrap();
    assert_eq!((loc.string_index, loc.fret), (1, 0));
    // Channel 3 forces string 2: 64 is fret 5 there
    let loc = router.route_note(3, 64, &held).unwrap();
    assert_eq!((loc.string_index, loc.fret), (2, 5));
}
