use spiel::error::SpielError;
use spiel::hotkey_update::apply_hotkey_and_persist;
use std::cell::RefCell;

#[test]
fn registers_new_hotkey_then_persists() {
    let calls = RefCell::new(Vec::<String>::new());

    let result = apply_hotkey_and_persist(
        "Cmd+Alt+D",
        "Cmd+Shift+K",
        |hk| {
            calls.borrow_mut().push(format!("register:{hk}"));
            Ok(())
        },
        || {
            calls.borrow_mut().push("save".into());
            Ok(())
        },
    )
    .0;

    assert!(result.is_ok());
    assert_eq!(calls.into_inner(), vec!["register:Cmd+Shift+K", "save"]);
}

#[test]
fn rolls_back_hotkey_if_save_fails() {
    let calls = RefCell::new(Vec::<String>::new());

    let result = apply_hotkey_and_persist(
        "Cmd+Alt+D",
        "Cmd+Shift+K",
        |hk| {
            calls.borrow_mut().push(format!("register:{hk}"));
            Ok(())
        },
        || {
            calls.borrow_mut().push("save".into());
            Err(SpielError::Config("disk full".into()))
        },
    )
    .0;

    assert!(result.is_err());
    assert_eq!(calls.into_inner(), vec!["register:Cmd+Shift+K", "save", "register:Cmd+Alt+D"]);
}

#[test]
fn unchanged_hotkey_only_persists() {
    let calls = RefCell::new(Vec::<String>::new());

    let result = apply_hotkey_and_persist(
        "Cmd+Alt+D",
        "Cmd+Alt+D",
        |hk| {
            calls.borrow_mut().push(format!("register:{hk}"));
            Ok(())
        },
        || {
            calls.borrow_mut().push("save".into());
            Ok(())
        },
    )
    .0;

    assert!(result.is_ok());
    assert_eq!(calls.into_inner(), vec!["save"]);
}

#[test]
fn restores_previous_hotkey_when_new_registration_fails() {
    let calls = RefCell::new(Vec::<String>::new());

    let result = apply_hotkey_and_persist(
        "Cmd+Alt+D",
        "Cmd+Shift+K",
        |hk| {
            calls.borrow_mut().push(format!("register:{hk}"));
            if hk == "Cmd+Shift+K" {
                return Err(SpielError::Config("in use".into()));
            }
            Ok(())
        },
        || {
            calls.borrow_mut().push("save".into());
            Ok(())
        },
    )
    .0;

    assert!(result.is_err());
    assert_eq!(calls.into_inner(), vec!["register:Cmd+Shift+K", "register:Cmd+Alt+D"]);
}

#[test]
fn save_is_handed_back_unrun_when_registration_fails() {
    let calls = RefCell::new(Vec::<String>::new());
    {
        let (result, unused) = apply_hotkey_and_persist(
            "Cmd+Alt+D",
            "Cmd+Shift+K",
            |hk| {
                calls.borrow_mut().push(format!("register:{hk}"));
                if hk == "Cmd+Shift+K" {
                    return Err(SpielError::Config("in use".into()));
                }
                Ok(())
            },
            || {
                calls.borrow_mut().push("save".into());
                Ok(())
            },
        );
        assert!(matches!(result, Err(SpielError::Config(ref m)) if m == "in use"));
        assert!(unused.is_some());
    }
    {
        let (result, unused) = apply_hotkey_and_persist("Cmd+Alt+D", "Cmd+Shift+K", |_hk| Ok(()), || Ok(()));
        assert!(result.is_ok());
        assert!(unused.is_none());
    }
    assert_eq!(calls.into_inner(), vec!["register:Cmd+Shift+K", "register:Cmd+Alt+D"]);
}
