use physics_instruments::guitar::strummer::{strum_order, ChordGather, PluckQueue, StrumDirection};

#[test]
fn test_strum_direction_resolution() {
    assert!(StrumDirection::Down.is_down_stroke(true));
    assert!(StrumDirection::Down.is_down_stroke(false));
    assert!(!StrumDirection::Up.is_down_stroke(false));
    // Auto alternates
    let first = StrumDirection::Auto.is_down_stroke(false);
    assert!(first);
    let second = StrumDirection::Auto.is_down_stroke(first);
    assert!(!second);
    assert_eq!(StrumDirection::Auto.is_down_stroke(second), first);
}

#[test]
fn test_down_strum_goes_low_to_high_string() {
    // string indices of the chord notes (0 = high E, 5 = low E)
    let strings = vec![0, 5, 3, 5];
    assert_eq!(strum_order(&strings, true), vec![1, 3, 2, 0]);
}

#[test]
fn test_up_strum_goes_high_to_low_string() {
    let strings = vec![0, 5, 3, 5];
    assert_eq!(strum_order(&strings, false), vec![0, 2, 1, 3]);
}

#[test]
fn test_strum_order_full_chord() {
    let strings = vec![5, 4, 3, 2, 1, 0];
    assert_eq!(strum_order(&strings, true), vec![0, 1, 2, 3, 4, 5]);
    assert_eq!(strum_order(&strings, false), vec![5, 4, 3, 2, 1, 0]);
    assert_eq!(strum_order(&Vec::new(), true), Vec::<usize>::new());
    assert_eq!(strum_order(&vec![2], false), vec![0]);
}

#[test]
fn test_pluck_queue_releases_in_order() {
    let mut q: PluckQueue<&str> = PluckQueue::new();
    q.push("low E", 0);
    q.push("A", 2);
    q.push("D", 0);
    q.push("G", 1);
    let mut ready = Vec::new();
    q.step_into(&mut ready);
    assert_eq!(ready, vec!["low E", "D"]);
    assert_eq!(q.len(), 2);
    q.step_into(&mut ready);
    assert_eq!(ready, vec!["low E", "D", "G"]);
    q.step_into(&mut ready);
    assert_eq!(ready, vec!["low E", "D", "G", "A"]);
    assert_eq!(q.len(), 0);
    q.step_into(&mut ready);
    assert_eq!(ready.len(), 4);
}

#[test]
fn test_chord_gather_window() {
    let mut g: ChordGather<u8> = ChordGather::new();
    assert!(g.step().is_none());
    g.add(5, 0, 3);
    g.add(3, 2, 3);
    assert!(g.step().is_none());
    // a second note on string 5 replaces the first and restarts the window
    g.add(5, 3, 2);
    assert!(g.step().is_none());
    assert_eq!(g.step(), Some(vec![(3, 2), (5, 3)]));
    assert!(g.step().is_none());
}
