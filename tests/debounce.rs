use ble_sensor::debounce::Debouncer;

fn fired_indices(threshold: u32, inputs: &Vec<bool>) -> Vec<usize> {
    let fires = Debouncer::confirmations(threshold, inputs);
    let mut out = Vec::new();
    for (i, f) in fires.iter().enumerate() {
        if *f {
            out.push(i);
        }
    }
    out
}

#[test]
fn hold_for_threshold_fires_once_at_the_end() {
    let inputs = vec![true; 500];
    assert_eq!(fired_indices(500, &inputs), vec![499]);
}

#[test]
fn hold_one_short_of_threshold_never_fires() {
    let mut inputs = vec![true; 499];
    inputs.push(false);
    inputs.extend(vec![true; 499]);
    assert_eq!(fired_indices(500, &inputs), Vec::<usize>::new());
}

#[test]
fn long_hold_fires_only_once() {
    let inputs = vec![true; 2000];
    assert_eq!(fired_indices(500, &inputs), vec![499]);
}

#[test]
fn each_qualifying_press_fires_once() {
    let mut inputs = vec![false; 3];
    inputs.extend(vec![true; 4]);
    inputs.push(false);
    inputs.extend(vec![true; 2]);
    inputs.push(false);
    inputs.extend(vec![true; 3]);
    assert_eq!(fired_indices(3, &inputs), vec![5, 13]);
}

#[test]
fn step_counts_down_and_resets_on_release() {
    let mut d = Debouncer::new(3);
    assert!(!d.step(true));
    assert_eq!(d.counter, 2);
    assert!(!d.step(false));
    assert_eq!(d.counter, 3);
    assert!(!d.step(true));
    assert!(!d.step(true));
    assert!(d.step(true));
    assert_eq!(d.counter, 0);
    assert!(!d.step(true));
    assert_eq!(d.counter, 0);
    assert!(!d.step(false));
    assert_eq!(d.counter, 3);
}

#[test]
fn threshold_of_one_fires_on_first_press() {
    assert_eq!(fired_indices(1, &vec![true, true, false, true]), vec![0, 3]);
}

#[test]
fn empty_sequence_fires_nothing() {
    assert!(Debouncer::confirmations(500, &Vec::new()).is_empty());
}
