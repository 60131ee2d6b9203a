use trailscan::checkpoint::{default_checkpoint_path, Checkpoint};

fn sample() -> Checkpoint {
    Checkpoint::new(
        7,
        String::from("targets.txt"),
        String::from("output.txt"),
        String::from("TrailMerge"),
    )
}

#[test]
fn to_string_renders_the_four_lines() {
    let c = sample();
    assert_eq!(
        c.to_string(),
        "next_index=7\ntargets=targets.txt\noutput=output.txt\nmode=TrailMerge\n"
    );
}

#[test]
fn roundtrip_is_identity() {
    let c = sample();
    let text = c.to_string();
    let back = Checkpoint::from_str(&text).expect("a written checkpoint parses");
    assert_eq!(back.next_index, 7);
    assert_eq!(back.targets_path, "targets.txt");
    assert_eq!(back.output_path, "output.txt");
    assert_eq!(back.mode, "TrailMerge");
}

#[test]
fn roundtrip_zero_index() {
    let c = Checkpoint::new(0, String::from("t"), String::from("o"), String::from("TrailSmug"));
    let back = Checkpoint::from_str(&c.to_string()).unwrap();
    assert_eq!(back.next_index, 0);
    assert_eq!(back.mode, "TrailSmug");
}

#[test]
fn unrecognised_keys_are_ignored() {
    let text = "next_index=3\ncolour=green\ntargets=t\noutput=o\nmode=TrailMerge\nnote=hi\n";
    let c = Checkpoint::from_str(text).expect("extra keys do not hurt");
    assert_eq!(c.next_index, 3);
    assert_eq!(c.targets_path, "t");
}

#[test]
fn missing_required_key_yields_none() {
    assert!(Checkpoint::from_str("next_index=3\ntargets=t\noutput=o\n").is_none());
    assert!(Checkpoint::from_str("targets=t\noutput=o\nmode=m\n").is_none());
    assert!(Checkpoint::from_str("").is_none());
}

#[test]
fn unparsable_index_yields_none() {
    assert!(Checkpoint::from_str("next_index=abc\ntargets=t\noutput=o\nmode=m\n").is_none());
    assert!(Checkpoint::from_str("next_index=\ntargets=t\noutput=o\nmode=m\n").is_none());
    assert!(Checkpoint::from_str(
        "next_index=99999999999999999999999999\ntargets=t\noutput=o\nmode=m\n"
    )
    .is_none());
}

#[test]
fn keys_and_values_are_trimmed() {
    let c = Checkpoint::from_str(" next_index = 5 \n targets = t \n output = o \n mode = m \n")
        .expect("whitespace around keys and values is stripped");
    assert_eq!(c.next_index, 5);
    assert_eq!(c.targets_path, "t");
    assert_eq!(c.output_path, "o");
    assert_eq!(c.mode, "m");
}

#[test]
fn a_repeated_key_keeps_its_last_value() {
    let c = Checkpoint::from_str("next_index=1\nnext_index=9\ntargets=t\noutput=o\nmode=m\n")
        .unwrap();
    assert_eq!(c.next_index, 9);
}

#[test]
fn a_value_may_contain_equals_signs() {
    let c = Checkpoint::from_str("next_index=1\ntargets=a=b=c\noutput=o\nmode=m\n").unwrap();
    assert_eq!(c.targets_path, "a=b=c");
}

#[test]
fn default_path_is_checkpoint() {
    assert_eq!(default_checkpoint_path(), "checkpoint");
}
