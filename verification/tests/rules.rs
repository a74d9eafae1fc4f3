use tertestrial::config::{Action, Configuration, Var, VarSource};
use tertestrial::trigger::Trigger;

fn trigger(command: &str, file: Option<&str>, line: Option<usize>) -> Trigger {
    Trigger {
        command: String::from(command),
        file: file.map(String::from),
        line,
    }
}

fn action(command: &str, file: Option<&str>, line: Option<usize>, run: &str) -> Action {
    Action {
        trigger: trigger(command, file, line),
        run: String::from(run),
        vars: Some(vec![]),
    }
}

#[test]
fn test_all() {
    let config = Configuration { actions: vec![] };
    let give = Trigger {
        command: "testAll".to_string(),
        file: None,
        line: None,
    };
    let have = config.get_command(give);
    assert!(have.is_err());
}

#[test]
fn exact_match() {
    let action1 = Action {
        trigger: Trigger {
            command: "testFunction".to_string(),
            file: Some("filename".to_string()),
            line: Some(1),
        },
        run: String::from("action1 command"),
        vars: Some(vec![]),
    };
    let action2 = Action {
        trigger: Trigger {
            command: "testFunction".to_string(),
            file: Some("filename".to_string()),
            line: Some(2),
        },
        run: String::from("action2 command"),
        vars: Some(vec![]),
    };
    let action3 = Action {
        trigger: Trigger {
            command: "testFunction".to_string(),
            file: Some("filename".to_string()),
            line: Some(3),
        },
        run: String::from("action3 command"),
        vars: Some(vec![]),
    };
    let config = Configuration {
        actions: vec![action1, action2, action3],
    };
    let give = Trigger {
        command: "testFunction".to_string(),
        file: Some("filename".to_string()),
        line: Some(2),
    };
    let have = config.get_command(give);
    assert_eq!(have, Ok(String::from("action2 command")));
}

#[test]
fn no_match() {
    let action1 = Action {
        trigger: Trigger {
            command: "testFile".to_string(),
            file: Some("filename".to_string()),
            line: None,
        },
        run: String::from("action1 command"),
        vars: Some(vec![]),
    };
    let config = Configuration {
        actions: vec![action1],
    };
    let give = Trigger {
        command: "testFile".to_string(),
        file: Some("other filename".to_string()),
        line: None,
    };
    let have = config.get_command(give);
    assert!(have.is_err());
}

#[test]
fn single_action_resolves() {
    let config = Configuration {
        actions: vec![Action {
            trigger: trigger("testAll", None, None),
            run: String::from("echo test all files"),
            vars: None,
        }],
    };
    let have = config.get_command(trigger("testAll", None, None));
    assert_eq!(have, Ok(String::from("echo test all files")));
}

#[test]
fn distinct_commands_each_resolve() {
    let config = Configuration {
        actions: vec![
            action("testAll", None, None, "run all"),
            action("testFile", None, None, "run file"),
            action("testFunction", None, None, "run function"),
        ],
    };
    assert_eq!(
        config.get_command(trigger("testAll", None, None)),
        Ok(String::from("run all"))
    );
    assert_eq!(
        config.get_command(trigger("testFile", Some("a.rs"), None)),
        Ok(String::from("run file"))
    );
    assert_eq!(
        config.get_command(trigger("testFunction", Some("a.rs"), Some(7))),
        Ok(String::from("run function"))
    );
    let missed = config.get_command(trigger("lintAll", None, None));
    match missed {
        Err(e) => {
            assert!(e.message.contains("lintAll"));
            assert_eq!(
                e.message,
                "cannot determine command for trigger: command lintAll"
            );
        }
        Ok(_) => panic!("an unmatched command kind must not resolve"),
    }
}

#[test]
fn first_match_wins_over_more_specific() {
    let config = Configuration {
        actions: vec![
            action("testFile", None, None, "loose first"),
            action("testFile", Some("a.rs"), Some(3), "tight second"),
        ],
    };
    let have = config.get_command(trigger("testFile", Some("a.rs"), Some(3)));
    assert_eq!(have, Ok(String::from("loose first")));
}

#[test]
fn no_match_error_names_trigger() {
    let config = Configuration { actions: vec![] };
    let have = config.get_command(trigger("testFunction", Some("lib.rs"), Some(42)));
    match have {
        Err(e) => {
            assert_eq!(
                e.message,
                "cannot determine command for trigger: command testFunction, file lib.rs, line 42"
            );
            assert_eq!(
                e.guidance,
                "Please make sure that this trigger is listed in your configuration file"
            );
        }
        Ok(_) => panic!("an empty rule table must not resolve"),
    }
}

#[test]
fn placeholders_fill_from_trigger() {
    let config = Configuration {
        actions: vec![Action {
            trigger: trigger("testFunction", None, None),
            run: String::from("echo testing file {{file}} at line {{line}}"),
            vars: None,
        }],
    };
    let have = config.get_command(trigger("testFunction", Some("foo.rs"), Some(12)));
    assert_eq!(have, Ok(String::from("echo testing file foo.rs at line 12")));
}

#[test]
fn unknown_placeholder_left_untouched() {
    let config = Configuration {
        actions: vec![Action {
            trigger: trigger("testAll", None, None),
            run: String::from("echo {{unknown}} for {{command}}"),
            vars: None,
        }],
    };
    let have = config.get_command(trigger("testAll", None, None));
    assert_eq!(have, Ok(String::from("echo {{unknown}} for testAll")));
}

#[test]
fn file_var_extracts_capture() {
    let config = Configuration {
        actions: vec![Action {
            trigger: trigger("testFunction", None, None),
            run: String::from("cargo test {{name}}"),
            vars: Some(vec![Var {
                name: String::from("name"),
                source: VarSource::File,
                filter: String::from("(\\w+)_test"),
            }]),
        }],
    };
    let have = config.get_command(trigger("testFunction", Some("foo_test.rs"), None));
    assert_eq!(have, Ok(String::from("cargo test foo")));
}

#[test]
fn file_var_zero_groups_rejected() {
    let config = Configuration {
        actions: vec![Action {
            trigger: trigger("testFile", None, None),
            run: String::from("echo {{name}}"),
            vars: Some(vec![Var {
                name: String::from("name"),
                source: VarSource::File,
                filter: String::from("foo"),
            }]),
        }],
    };
    let have = config.get_command(trigger("testFile", Some("foo_test.rs"), None));
    match have {
        Err(e) => assert_eq!(e.message, "found 1 captures"),
        Ok(_) => panic!("a filter without a capture group must be rejected"),
    }
}

#[test]
fn file_var_two_groups_rejected() {
    let config = Configuration {
        actions: vec![Action {
            trigger: trigger("testFile", None, None),
            run: String::from("echo {{name}}"),
            vars: Some(vec![Var {
                name: String::from("name"),
                source: VarSource::File,
                filter: String::from("(f)(oo)"),
            }]),
        }],
    };
    let have = config.get_command(trigger("testFile", Some("foo_test.rs"), None));
    match have {
        Err(e) => {
            assert_eq!(e.message, "found 3 captures");
            assert_eq!(
                e.guidance,
                "filters in the Tertestrial configuration file can only contain one capture group"
            );
        }
        Ok(_) => panic!("a filter with two capture groups must be rejected"),
    }
}

#[test]
fn file_var_zero_groups_rejected_even_unmatched() {
    let config = Configuration {
        actions: vec![Action {
            trigger: trigger("testFile", None, None),
            run: String::from("echo {{name}}"),
            vars: Some(vec![Var {
                name: String::from("name"),
                source: VarSource::File,
                filter: String::from("xyz"),
            }]),
        }],
    };
    let have = config.get_command(trigger("testFile", Some("foo.rs"), None));
    match have {
        Err(e) => assert_eq!(e.message, "found 1 captures"),
        Ok(_) => panic!("a filter without a capture group must be rejected"),
    }
}

#[test]
fn file_var_bad_pattern_rejected() {
    let config = Configuration {
        actions: vec![Action {
            trigger: trigger("testFile", None, None),
            run: String::from("echo {{name}}"),
            vars: Some(vec![Var {
                name: String::from("name"),
                source: VarSource::File,
                filter: String::from("(unclosed"),
            }]),
        }],
    };
    let have = config.get_command(trigger("testFile", Some("foo.rs"), None));
    match have {
        Err(e) => assert_eq!(e.message, "cannot parse filter pattern: (unclosed"),
        Ok(_) => panic!("an invalid filter must be rejected"),
    }
}

#[test]
fn file_var_unmatched_pattern_rejected() {
    let config = Configuration {
        actions: vec![Action {
            trigger: trigger("testFile", None, None),
            run: String::from("echo {{name}}"),
            vars: Some(vec![Var {
                name: String::from("name"),
                source: VarSource::File,
                filter: String::from("(\\d+)_spec"),
            }]),
        }],
    };
    let have = config.get_command(trigger("testFile", Some("foo_test.rs"), None));
    match have {
        Err(e) => assert_eq!(e.message, "filter pattern does not match: (\\d+)_spec"),
        Ok(_) => panic!("a filter that matches nowhere must be rejected"),
    }
}

#[test]
fn file_var_without_file_rejected() {
    let config = Configuration {
        actions: vec![Action {
            trigger: trigger("testAll", None, None),
            run: String::from("echo {{name}}"),
            vars: Some(vec![Var {
                name: String::from("name"),
                source: VarSource::File,
                filter: String::from("(\\w+)"),
            }]),
        }],
    };
    let have = config.get_command(trigger("testAll", None, None));
    match have {
        Err(e) => assert_eq!(e.message, "no file name known for this trigger"),
        Ok(_) => panic!("a file variable without a file must be rejected"),
    }
}

#[test]
fn later_var_reads_earlier_var() {
    let config = Configuration {
        actions: vec![Action {
            trigger: trigger("testFunction", None, None),
            run: String::from("echo {{file}} {{stem}}"),
            vars: Some(vec![
                Var {
                    name: String::from("file"),
                    source: VarSource::File,
                    filter: String::from("(\\w+_test)"),
                },
                Var {
                    name: String::from("stem"),
                    source: VarSource::File,
                    filter: String::from("(\\w+)_test"),
                },
            ]),
        }],
    };
    let have = config.get_command(trigger("testFunction", Some("foo_test.rs"), None));
    assert_eq!(have, Ok(String::from("echo foo_test foo")));
}

#[test]
fn file_pattern_is_plain_text_not_regex() {
    let config = Configuration {
        actions: vec![action("testFile", Some("a+b.rs"), None, "run it")],
    };
    let exact = config.get_command(trigger("testFile", Some("a+b.rs"), None));
    assert_eq!(exact, Ok(String::from("run it")));
    let regex_like = config.get_command(trigger("testFile", Some("aab.rs"), None));
    assert!(regex_like.is_err());
}

#[test]
fn unimplemented_var_source_rejected() {
    let config = Configuration {
        actions: vec![Action {
            trigger: trigger("testFile", None, None),
            run: String::from("echo {{name}}"),
            vars: Some(vec![Var {
                name: String::from("name"),
                source: VarSource::Line,
                filter: String::from("(\\w+)"),
            }]),
        }],
    };
    let have = config.get_command(trigger("testFile", Some("foo.rs"), None));
    match have {
        Err(e) => assert_eq!(e.message, "variable source not implemented: line"),
        Ok(_) => panic!("an unimplemented variable source must be rejected"),
    }
}
