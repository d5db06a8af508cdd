use mes::derive::r_ident;

fn names(list: &[&str]) -> Vec<String> {
    list.iter().map(|s| s.to_string()).collect()
}

#[test]
fn r_ident_is_r_when_r_is_free() {
    assert_eq!(r_ident(&names(&[])), "R");
    assert_eq!(r_ident(&names(&["T", "U"])), "R");
    assert_eq!(r_ident(&names(&["RR", "RRR"])), "R");
    assert_eq!(r_ident(&names(&["r", "Rr", ""])), "R");
}

#[test]
fn r_ident_grows_past_the_names_that_are_taken() {
    assert_eq!(r_ident(&names(&["R"])), "RR");
    assert_eq!(r_ident(&names(&["RR", "T", "R"])), "RRR");
    assert_eq!(r_ident(&names(&["R", "RR", "RRR", "RRRRR"])), "RRRR");
    assert_eq!(r_ident(&names(&["R", "R", "R"])), "RR");
}
