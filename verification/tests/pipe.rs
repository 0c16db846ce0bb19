use rdbg::Pipe;

#[test]
fn new_pipe_exposes_both_ends() {
    let pipe = Pipe::new(3, 4);
    assert_eq!(pipe.read_end(), Some(3));
    assert_eq!(pipe.write_end(), Some(4));
}

#[test]
fn close_read_is_idempotent() {
    let mut pipe = Pipe::new(3, 4);
    assert_eq!(pipe.close_read(), Some(3));
    // A second close releases nothing: the descriptor cannot be freed twice.
    assert_eq!(pipe.close_read(), None);
    assert_eq!(pipe.read_end(), None);
    // The write end is untouched.
    assert_eq!(pipe.write_end(), Some(4));
}

#[test]
fn close_write_is_idempotent() {
    let mut pipe = Pipe::new(3, 4);
    assert_eq!(pipe.close_write(), Some(4));
    assert_eq!(pipe.close_write(), None);
    assert_eq!(pipe.write_end(), None);
    assert_eq!(pipe.read_end(), Some(3));
}

#[test]
fn closing_both_ends_releases_each_once() {
    let mut pipe = Pipe::new(5, 6);
    assert_eq!(pipe.close_read(), Some(5));
    assert_eq!(pipe.close_write(), Some(6));
    assert_eq!(pipe.close_read(), None);
    assert_eq!(pipe.close_write(), None);
}
