use auth::firewall::{Firewall, MemoryFirewall};
use auth::flash::FlashMsg;
use auth::pass_checker::PassChecker;
use auth::pass_db::PassDb;
use auth::shorewall::{check_outcome, output_to_result, Error, Shorewall};
use auth::workflow::{begin, next, verify_credentials, Action, Event, Outcome, Rejection};
use auth::shorewall::valid_address;
use std::sync::atomic::{AtomicU32, Ordering};

#[test]
fn add_then_check_and_clear() {
    let mut fw = MemoryFirewall::new();
    assert_eq!(fw.check_ip("10.0.0.1"), Ok(false));
    assert_eq!(fw.add_ip("10.0.0.1"), Ok(()));
    assert_eq!(fw.check_ip("10.0.0.1"), Ok(true));
    assert_eq!(fw.add_ip("10.0.0.2"), Ok(()));
    assert_eq!(fw.clear_whitelist(), Ok(()));
    assert_eq!(fw.check_ip("10.0.0.1"), Ok(false));
    assert_eq!(fw.check_ip("10.0.0.2"), Ok(false));
}

#[test]
fn add_twice_is_fine() {
    let mut fw = MemoryFirewall::new();
    assert_eq!(fw.add_ip("192.168.1.5"), Ok(()));
    assert_eq!(fw.add_ip("192.168.1.5"), Ok(()));
    assert_eq!(fw.check_ip("192.168.1.5"), Ok(true));
    assert_eq!(fw.check_ip("192.168.1.50"), Ok(false));
}

#[test]
fn failing_add_reports_code_and_stderr() {
    let r = output_to_result(false, Some(1), b"stub: cannot add\n");
    assert_eq!(r, Err(Error::Failure(Some(1), "stub: cannot add\n".to_string())));
    assert_eq!(output_to_result(true, Some(0), b"noise"), Ok(()));
    assert_eq!(output_to_result(false, None, b""), Err(Error::Failure(None, String::new())));
}

#[test]
fn stderr_with_invalid_utf8_is_replaced() {
    let r = output_to_result(false, Some(2), &[b'a', 0xFF, b'b']);
    assert_eq!(r, Err(Error::Failure(Some(2), "a\u{FFFD}b".to_string())));
}

#[test]
fn membership_outcome() {
    assert_eq!(check_outcome(Some(0), b""), Ok(true));
    assert_eq!(check_outcome(Some(1), b""), Ok(false));
    assert_eq!(check_outcome(Some(2), b"grep: bad"), Err(Error::Failure(Some(2), "grep: bad".to_string())));
    assert_eq!(check_outcome(None, b""), Err(Error::Failure(None, String::new())));
}

#[test]
fn shorewall_commands() {
    let sw = Shorewall::new("/sbin/shorewall", "loc");
    assert_eq!(sw.executable(), "/sbin/shorewall");
    assert_eq!(sw.add_args("10.1.2.3"), vec!["add".to_string(), "loc".to_string(), "10.1.2.3".to_string()]);
    assert_eq!(
        sw.check_script("10.1.2.3"),
        "members=$(/sbin/shorewall show dynamic loc) || exit 2; printf '%s\\n' \"$members\" | grep -F -w -q -- 10.1.2.3"
    );
    assert_eq!(
        sw.clear_script(),
        "/sbin/shorewall show dynamic loc | awk '/^ / {print $1}' | xargs -n1 /sbin/shorewall delete"
    );
}

/// An allow-list that counts the calls made to it.
struct Counting {
    inner: MemoryFirewall,
    checks: AtomicU32,
    adds: u32,
}

impl Counting {
    fn new() -> Self {
        Counting { inner: MemoryFirewall::new(), checks: AtomicU32::new(0), adds: 0 }
    }
}

impl Firewall for Counting {
    type Error = ();

    fn clear_whitelist(&mut self) -> Result<(), ()> {
        self.inner.clear_whitelist()
    }

    fn add_ip(&mut self, ip: &str) -> Result<(), ()> {
        self.adds += 1;
        self.inner.add_ip(ip)
    }

    fn check_ip(&self, ip: &str) -> Result<bool, ()> {
        self.checks.fetch_add(1, Ordering::SeqCst);
        self.inner.check_ip(ip)
    }
}

/// Runs one request through the library's steps against `fw`.
fn authorize<F: Firewall>(
    fw: &mut F,
    checker: &PassChecker,
    db: &PassDb,
    login: &str,
    password: &str,
    ip: &str,
) -> Result<Outcome, F::Error> {
    let mut action = begin(checker, db, login, password);
    loop {
        action = match action {
            Action::Finish(outcome) => return Ok(outcome),
            Action::CheckAddress => next(Event::Checked(fw.check_ip(ip)?)),
            Action::AddAddress => {
                fw.add_ip(ip)?;
                next(Event::Added)
            }
        };
    }
}

#[test]
fn steps_of_a_request() {
    assert_eq!(next(Event::Checked(true)), Action::Finish(Outcome::Admitted));
    assert_eq!(next(Event::Checked(false)), Action::AddAddress);
    assert_eq!(next(Event::Added), Action::Finish(Outcome::Admitted));
    let (checker, db) = alice_setup();
    assert_eq!(begin(&checker, &db, "alice", "pw1"), Action::CheckAddress);
    assert_eq!(begin(&checker, &db, "alice", "nope"), Action::Finish(Outcome::Rejected(Rejection::PasswordMismatch)));
    assert_eq!(begin(&checker, &db, "bob", "pw1"), Action::Finish(Outcome::Rejected(Rejection::UserNotFound)));
}

fn alice_setup() -> (PassChecker, PassDb) {
    let checker = PassChecker::new(10, vec![1, 2]);
    let mut db = PassDb::new();
    let h = checker.hash_password("alice", "pw1");
    db.insert("alice", h);
    (checker, db)
}

#[test]
fn admit_once_then_already_admitted() {
    let (checker, db) = alice_setup();
    let mut fw = Counting::new();
    let r = authorize(&mut fw, &checker, &db, "alice", "pw1", "10.0.0.7");
    assert_eq!(r, Ok(Outcome::Admitted));
    assert_eq!(fw.adds, 1);
    assert_eq!(fw.inner.check_ip("10.0.0.7"), Ok(true));
    let r = authorize(&mut fw, &checker, &db, "alice", "pw1", "10.0.0.7");
    assert_eq!(r, Ok(Outcome::Admitted));
    assert_eq!(fw.adds, 1);
}

#[test]
fn unknown_identity_touches_nothing() {
    let (checker, db) = alice_setup();
    let mut fw = Counting::new();
    let r = authorize(&mut fw, &checker, &db, "mallory", "pw1", "10.0.0.7");
    assert_eq!(r, Ok(Outcome::Rejected(Rejection::UserNotFound)));
    assert_eq!(fw.checks.load(Ordering::SeqCst), 0);
    assert_eq!(fw.adds, 0);
    assert_eq!(Rejection::UserNotFound.message(), "User not found");
}

#[test]
fn wrong_password_is_rejected() {
    let (checker, db) = alice_setup();
    let mut fw = Counting::new();
    let r = authorize(&mut fw, &checker, &db, "alice", "pw2", "10.0.0.7");
    assert_eq!(r, Ok(Outcome::Rejected(Rejection::PasswordMismatch)));
    assert_eq!(fw.checks.load(Ordering::SeqCst), 0);
    assert_eq!(fw.adds, 0);
    assert_eq!(Rejection::PasswordMismatch.message(), "Password doesn't match");
    assert_eq!(verify_credentials(&checker, &db, "alice", "pw1"), None);
}

#[test]
fn flash_classes() {
    let f = FlashMsg::new("error", "User not found");
    assert_eq!(f.name(), "danger");
    assert_eq!(f.message(), "User not found");
    assert_eq!(FlashMsg::new("success", "ok").name(), "success");
    assert_eq!(FlashMsg::new("warning", "w").name(), "warning");
    assert_eq!(FlashMsg::new("info", "i").name(), "primary");
}

#[test]
fn address_text() {
    assert!(valid_address("10.0.0.1"));
    assert!(valid_address("fe80::1"));
    assert!(valid_address("2001:DB8::FF"));
    assert!(!valid_address(""));
    assert!(!valid_address("10.0.0.1; rm -rf /"));
    assert!(!valid_address("10.0.0.1 "));
    assert!(!valid_address("g::1"));
}
