use tgoskits::errno::AxError;
use tgoskits::ldisc::{
    ECHO, ECHOCTL, ECHOK, ICANON, ICRNL, ISIG, LineDiscipline, ProcessMode, ReadOutcome, Termios, VEOF, VERASE, VINTR,
    VKILL, VMIN, VQUIT, VSUSP,
};
use tgoskits::tty::TtyRead;

struct Feed {
    data: Vec<u8>,
    pos: usize,
}

impl Feed {
    fn new(data: &[u8]) -> Self {
        Feed { data: data.to_vec(), pos: 0 }
    }
}

impl TtyRead for Feed {
    fn read(&mut self, buf: &mut [u8]) -> usize {
        let n = buf.len().min(self.data.len() - self.pos);
        buf[..n].copy_from_slice(&self.data[self.pos..self.pos + n]);
        self.pos += n;
        n
    }
}

fn termios(lflag: u32) -> Termios {
    let mut cc = [0u8; 19];
    cc[VINTR] = 3;
    cc[VQUIT] = 0x1c;
    cc[VERASE] = 0x7f;
    cc[VKILL] = 0x15;
    cc[VEOF] = 4;
    cc[VMIN] = 1;
    cc[VSUSP] = 0x1a;
    Termios { iflag: ICRNL, lflag, cc }
}

fn canonical() -> Termios {
    termios(ISIG | ICANON | ECHO | ECHOK | ECHOCTL)
}

fn read_all<R: TtyRead>(ld: &mut LineDiscipline<R>, t: &Termios) -> Vec<u8> {
    let mut buf = [0u8; 80];
    match ld.read(&mut buf, t) {
        Ok(ReadOutcome::Done(n)) | Ok(ReadOutcome::Wait(n)) => buf[..n].to_vec(),
        Err(_) => Vec::new(),
    }
}

#[test]
fn canonical_line_is_delivered_with_echo() {
    let t = canonical();
    let mut ld = LineDiscipline::new(Feed::new(b"hi\r"), ProcessMode::Manual);
    let (ready, out) = ld.poll_read(&t);
    assert!(ready);
    assert!(out.sent);
    // CR is translated to NL, echoed as NL.
    assert_eq!(out.echo, b"hi\n".to_vec());
    assert!(out.signals.is_empty());
    assert_eq!(read_all(&mut ld, &t), b"hi\n".to_vec());
}

#[test]
fn incomplete_line_is_held_back() {
    let t = canonical();
    let mut ld = LineDiscipline::new(Feed::new(b"abc"), ProcessMode::Manual);
    let (ready, out) = ld.poll_read(&t);
    assert!(!ready);
    assert!(!out.sent);
    let mut buf = [0u8; 8];
    assert_eq!(ld.read(&mut buf, &t), Ok(ReadOutcome::Wait(0)));
}

#[test]
fn erase_and_kill_edit_the_line() {
    let t = canonical();
    let mut ld = LineDiscipline::new(Feed::new(b"ab\x7fc\x15xy\n"), ProcessMode::Manual);
    let (_, out) = ld.poll_read(&t);
    assert_eq!(read_all(&mut ld, &t), b"xy\n".to_vec());
    // Erase echoes as backspace-space-backspace, kill as ^U.
    assert_eq!(out.echo, b"ab\x08 \x08c^Uxy\n".to_vec());
}

#[test]
fn interrupt_character_raises_a_signal() {
    let t = canonical();
    let mut ld = LineDiscipline::new(Feed::new(b"\x03"), ProcessMode::Manual);
    let (ready, out) = ld.poll_read(&t);
    assert!(!ready);
    assert_eq!(out.signals, vec![2]);
    assert_eq!(out.echo, b"^C".to_vec());
}

#[test]
fn end_of_file_hands_over_the_line_without_the_eof_byte() {
    let t = canonical();
    let mut ld = LineDiscipline::new(Feed::new(b"ok\x04"), ProcessMode::Manual);
    ld.poll_read(&t);
    assert_eq!(read_all(&mut ld, &t), b"ok".to_vec());
}

#[test]
fn raw_mode_passes_bytes_through() {
    let t = termios(0);
    let mut ld = LineDiscipline::new(Feed::new(b"a\x03b"), ProcessMode::Manual);
    let (ready, out) = ld.poll_read(&t);
    assert!(ready);
    assert!(out.echo.is_empty());
    assert!(out.signals.is_empty());
    assert_eq!(read_all(&mut ld, &t), b"a\x03b".to_vec());
}

#[test]
fn raw_read_needs_room_for_vmin_bytes() {
    let mut t = termios(0);
    t.cc[VMIN] = 4;
    let mut ld = LineDiscipline::new(Feed::new(b"ab"), ProcessMode::Manual);
    ld.poll_read(&t);
    let mut small = [0u8; 3];
    assert_eq!(ld.read(&mut small, &t), Err(AxError::WouldBlock));
    let mut buf = [0u8; 8];
    assert_eq!(ld.read(&mut buf, &t), Ok(ReadOutcome::Wait(2)));
    assert_eq!(&buf[..2], b"ab");
    let mut empty = [0u8; 0];
    assert_eq!(ld.read(&mut empty, &t), Ok(ReadOutcome::Done(0)));
}

#[test]
fn unprocessed_mode_expands_newlines() {
    let t = canonical();
    let mut ld = LineDiscipline::new(Feed::new(b"a\nb"), ProcessMode::Unprocessed);
    let (ready, out) = ld.poll_read(&t);
    assert!(ready);
    assert!(out.echo.is_empty());
    let mut buf = [0u8; 16];
    assert_eq!(ld.read(&mut buf, &t), Ok(ReadOutcome::Done(4)));
    assert_eq!(&buf[..4], b"a\r\nb");
    assert_eq!(ld.read(&mut buf, &t), Err(AxError::WouldBlock));
}

#[test]
fn drain_discards_queued_input() {
    let t = canonical();
    let mut ld = LineDiscipline::new(Feed::new(b"one\n"), ProcessMode::Manual);
    ld.poll_read(&t);
    ld.drain_input();
    assert!(ld.poll_allowed());
    let (ready, _) = ld.poll_read(&t);
    assert!(!ready);
}

#[test]
fn long_line_is_handed_over_in_pieces() {
    let t = termios(ICANON);
    let mut line = vec![b'x'; 100];
    line.push(b'\n');
    let mut ld = LineDiscipline::new(Feed::new(&line), ProcessMode::Manual);
    // The first device read (80 bytes) ends inside the line.
    let (ready, _) = ld.poll_read(&t);
    assert!(!ready);
    let (ready, _) = ld.poll_read(&t);
    assert!(ready);
    assert_eq!(read_all(&mut ld, &t).len(), 80);
    // A drain now would drop a line that is partly handed over.
    ld.drain_input();
    assert!(!ld.poll_allowed());
}
