use snake::{init, initial_size, initial_title, push_decimal, App, InitError, Warning};

fn fresh() -> App<()> {
    match init(Ok(())) {
        Ok(app) => app,
        Err(e) => panic!("no context: {}", e.message()),
    }
}

#[test]
fn set_nonempty_title_reads_back() {
    let mut app = fresh();
    for t in ["Snake", "x", "  ", "Ünïcode ☃ title"] {
        let w = app.set_title(t.to_string());
        assert_eq!(w, None);
        assert_eq!(app.title(), t);
    }
}

#[test]
fn set_empty_title_gives_placeholder_and_warning() {
    let mut app = fresh();
    let w = app.set_title(String::new());
    assert_eq!(app.title(), "title");
    assert_eq!(w, Some(Warning::EmptyTitle));
    assert_eq!(Warning::EmptyTitle.message(), "WARNING: title shouldn't be empty!");
}

#[test]
fn set_valid_size_reads_back() {
    let mut app = fresh();
    for s in [(50, 50), (50, 4000), (1024, 768), (u32::MAX, u32::MAX)] {
        let w = app.set_size(s);
        assert!(w.is_empty());
        assert_eq!(app.size(), s);
    }
}

#[test]
fn narrow_width_is_clamped_height_kept() {
    let mut app = fresh();
    let w = app.set_size((10, 100));
    assert_eq!(app.size(), (50, 100));
    assert_eq!(w, vec![Warning::NarrowWidth]);
    assert_eq!(
        Warning::NarrowWidth.message(),
        "WARNING: width (size.0) shouldn't be under 50 pixels!"
    );
}

#[test]
fn both_sides_clamped() {
    let mut app = fresh();
    let w = app.set_size((10, 10));
    assert_eq!(app.size(), (50, 50));
    assert_eq!(w, vec![Warning::NarrowWidth, Warning::ShortHeight]);
}

#[test]
fn short_height_keeps_stored_width() {
    let mut app = fresh();
    let w = app.set_size((300, 10));
    assert_eq!(app.size(), (800, 50));
    assert_eq!(w, vec![Warning::ShortHeight]);
    assert_eq!(
        Warning::ShortHeight.message(),
        "WARNING: height (size.1) shouldn't be under 50 pixels!"
    );
}

#[test]
fn boundary_sides_are_valid() {
    let mut app = fresh();
    assert!(app.set_size((49, 50)) == vec![Warning::NarrowWidth]);
    assert_eq!(app.size(), (50, 50));
    assert!(app.set_size((0, 0)).len() == 2);
    assert_eq!(app.size(), (50, 50));
}

#[test]
fn clone_then_set_title_keeps_original() {
    let mut app = fresh();
    app.set_title("first".to_string());
    let mut copy = app.clone();
    assert_eq!(copy.title(), "first");
    copy.set_title("second".to_string());
    copy.set_size((100, 200));
    assert_eq!(app.title(), "first");
    assert_eq!(app.size(), (800, 600));
    assert_eq!(copy.title(), "second");
}

#[test]
fn clone_shares_handles() {
    let shared = std::rc::Rc::new(7u8);
    let app = match init(Ok(shared.clone())) {
        Ok(app) => app,
        Err(_) => panic!("no context"),
    };
    let copy = app.clone();
    assert!(std::rc::Rc::ptr_eq(app.handles(), copy.handles()));
    assert_eq!(std::rc::Rc::strong_count(&shared), 3);
}

#[test]
fn init_with_defaults() {
    let app = fresh();
    assert_eq!(app.title(), "Snake 0.1.0");
    assert_eq!(initial_title(), "Snake 0.1.0");
    assert_eq!(app.size(), (800, 600));
    assert_eq!(initial_size(), (800, 600));
    assert_eq!(app.terse(), "App \"Snake 0.1.0\" (800x600)");
}

#[test]
fn verbose_rendering() {
    let mut app = fresh();
    assert_eq!(
        app.verbose(),
        "App {\n  [...],\n\n  title: Arc { String { \"Snake 0.1.0\" } },\n  size: (800, 600)\n}"
    );
    app.set_title("t".to_string());
    app.set_size((50, 1234567));
    assert_eq!(
        app.verbose(),
        "App {\n  [...],\n\n  title: Arc { String { \"t\" } },\n  size: (50, 1234567)\n}"
    );
    assert_eq!(app.terse(), "App \"t\" (50x1234567)");
}

#[test]
fn init_failure_gives_error() {
    let r: Result<App<()>, InitError> = init(Err("No available video device".to_string()));
    match r {
        Ok(_) => panic!("a context came out of a failed platform"),
        Err(e) => assert_eq!(e.message(), "No available video device"),
    }
}

#[test]
fn decimal_digits() {
    for (n, t) in [(0u32, "0"), (7, "7"), (10, "10"), (905, "905"), (u32::MAX, "4294967295")] {
        let mut s = String::from(">");
        push_decimal(&mut s, n);
        assert_eq!(s, format!(">{}", t));
    }
}
