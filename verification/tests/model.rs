//! Names, errors, specifications and the helpers they rest on.

use tinybox::box_spec::{
    BoxSpec, Lifecycle, NetworkPolicy, Placement, Resources, Span, WorkspaceSource,
};
use tinybox::capability::Capability;
use tinybox::docker::{read_snapshot, DockerSandbox};
use tinybox::error::Error;
use tinybox::identity::{BoxId, HostRef, SandboxRef, SnapshotId};
use tinybox::number::decimal;
use tinybox::ordered::{compare, OrderedMap, Standing};
use tinybox::runtime::{BoxState, ExecRequest};
use tinybox::text::{join, split_once, strip_prefix, trim};

fn spec() -> Result<BoxSpec, Error> {
    Ok(BoxSpec::new(
        Placement::new(HostRef::new("builder-01")?, SandboxRef::new("docker")?),
        WorkspaceSource::OciImage("alpine:3".to_owned()),
    ))
}

#[test]
fn a_name_is_short_plain_and_no_path() -> Result<(), Error> {
    for name in ["a", "box-0", "A.b_c-9", "...", &"x".repeat(64)] {
        assert_eq!(BoxId::new(name)?.as_str(), name);
        assert_eq!(SnapshotId::new(name)?.into_string(), name);
    }
    for name in ["", ".", "..", "a/b", "a b", "é", &"x".repeat(65)] {
        assert_eq!(
            BoxId::new(name).err(),
            Some(Error::InvalidIdentifier {
                kind: "box id",
                value: name.to_owned(),
            })
        );
    }
    Ok(())
}

#[test]
fn each_kind_of_name_is_called_what_it_is() {
    let said = |error: Option<Error>| error.map(|error| error.to_string());

    assert_eq!(
        said(BoxId::new("a\"b").err()).as_deref(),
        Some("identifier \"a\\\"b\" is not a valid box id")
    );
    assert_eq!(
        said(SnapshotId::new("").err()).as_deref(),
        Some("identifier \"\" is not a valid snapshot id")
    );
    assert_eq!(
        said(HostRef::new("\n").err()).as_deref(),
        Some("identifier \"\\n\" is not a valid host name")
    );
    assert_eq!(
        said(SandboxRef::new(" ").err()).as_deref(),
        Some("identifier \" \" is not a valid sandbox name")
    );
    assert_eq!(
        said(DockerSandbox::new("a/b").err()).as_deref(),
        Some("identifier \"a/b\" is not a valid docker namespace")
    );
}

#[test]
fn every_error_says_what_happened() {
    for (error, said) in [
        (
            Error::Unsupported {
                sandbox: "passthrough".to_owned(),
                capability: Capability::MemorySnapshot,
            },
            "sandbox passthrough does not support memory snapshots",
        ),
        (
            Error::ZeroResourceLimit { limit: "pids_max" },
            "resource limit pids_max must be greater than zero",
        ),
        (
            Error::UnknownBox {
                id: "box-9".to_owned(),
            },
            "no box with id box-9",
        ),
        (
            Error::UnknownSnapshot {
                id: "sha-1".to_owned(),
            },
            "no snapshot with id sha-1",
        ),
        (
            Error::UnknownSandbox {
                name: "microvm".to_owned(),
            },
            "no sandbox named microvm",
        ),
        (
            Error::InvalidState {
                id: "box-0".to_owned(),
                actual: BoxState::Stopped,
                expected: BoxState::Ready,
            },
            "box box-0 is stopped but must be ready for this operation",
        ),
        (
            Error::DuplicateBox {
                id: "box-0".to_owned(),
            },
            "a box with id box-0 already exists",
        ),
        (
            Error::EmptyCommand {
                sandbox: "local".to_owned(),
            },
            "local was given no program to run",
        ),
        (Error::io("spawn", "no such file"), "could not spawn: no such file"),
        (
            Error::Store {
                operation: "read",
                message: "denied".to_owned(),
            },
            "could not read the box store: denied",
        ),
        (
            Error::Backend {
                sandbox: "docker".to_owned(),
                operation: "create a box",
                message: "no such image".to_owned(),
            },
            "docker could not create a box: no such image",
        ),
    ] {
        assert_eq!(error.to_string(), said);
        assert_eq!(error.clone(), error);
    }
}

#[test]
fn a_new_box_has_the_usual_settings() -> Result<(), Error> {
    let spec = spec()?;

    assert!(spec.is_colocated());
    assert_eq!(spec.network, NetworkPolicy::Denied);
    assert_eq!(
        spec.lifecycle,
        Lifecycle::Ephemeral {
            ttl: Span {
                secs: 3600,
                nanos: 0
            }
        }
    );
    assert_eq!(
        spec.resources,
        Resources {
            cpu_millis: 2000,
            memory_bytes: 2 * 1024 * 1024 * 1024,
            pids_max: 512,
            disk_bytes: 8 * 1024 * 1024 * 1024,
        }
    );
    assert_eq!(spec.resources, Resources::default());
    assert_eq!(
        Lifecycle::persistent(),
        Lifecycle::Persistent {
            autosnapshot: Span { secs: 60, nanos: 0 }
        }
    );
    assert!(spec.validate().is_ok());
    Ok(())
}

#[test]
fn a_runner_of_its_own_splits_a_box() -> Result<(), Error> {
    let runner = Placement::new(HostRef::new("local")?, SandboxRef::new("passthrough")?);

    let spec = spec()?.with_runner(runner);

    assert!(!spec.is_colocated());
    assert_eq!(spec.runner.host.as_str(), "local");
    assert_eq!(spec.workspace.host.as_str(), "builder-01");
    Ok(())
}

#[test]
fn every_limit_must_be_positive() -> Result<(), Error> {
    for limit in ["cpu_millis", "memory_bytes", "pids_max", "disk_bytes"] {
        let mut spec = spec()?;
        match limit {
            "cpu_millis" => spec.resources.cpu_millis = 0,
            "memory_bytes" => spec.resources.memory_bytes = 0,
            "pids_max" => spec.resources.pids_max = 0,
            _ => spec.resources.disk_bytes = 0,
        }
        assert_eq!(
            spec.validate().err(),
            Some(Error::ZeroResourceLimit { limit })
        );
    }
    Ok(())
}

#[test]
fn a_command_line_in_a_container_carries_its_settings() {
    let request = ExecRequest::new(vec!["make".to_owned()])
        .with_cwd("/src".to_owned())
        .with_env("B".to_owned(), "2".to_owned())
        .with_env("A".to_owned(), "1".to_owned())
        .with_stdin(vec![0]);

    assert_eq!(
        DockerSandbox::exec_command("tinybox-default-box-0", &request),
        [
            "docker",
            "exec",
            "--interactive",
            "--workdir",
            "/src",
            "--env",
            "A=1",
            "--env",
            "B=2",
            "tinybox-default-box-0",
            "make",
        ]
    );
}

#[test]
fn a_box_that_may_use_the_network_is_not_cut_off() -> Result<(), Error> {
    let mut spec = spec()?.with_env("CI".to_owned(), "true".to_owned());
    spec.network = NetworkPolicy::Allowed;
    spec.resources.cpu_millis = 1;

    let argv = DockerSandbox::run_command("tinybox-a-b", "alpine:3", &spec);

    assert!(!argv.contains(&"--network".to_owned()));
    assert_eq!(argv[5..7], ["--cpu-quota", "100"]);
    assert_eq!(argv[11..13], ["--env", "CI=true"]);
    Ok(())
}

#[test]
fn a_reported_image_names_a_snapshot() {
    let named = |reported: &str| read_snapshot(reported).map(|id| id.into_string());

    assert_eq!(
        named("sha256:30ff5506ef1d0123\n").as_deref(),
        Some("sha-30ff5506ef1d")
    );
    assert_eq!(named("sha256:30ff5506ef1d").as_deref(), Some("sha-30ff5506ef1d"));
    assert_eq!(named("sha256:30ff5506ef1"), None);
    assert_eq!(named("30ff5506ef1d"), None);
    assert_eq!(named("sha256:30ff/506ef1d"), None);
    assert_eq!(named(""), None);
}

#[test]
fn containers_of_different_boxes_have_different_names() -> Result<(), Error> {
    let first = DockerSandbox::new("team-a")?;
    let second = DockerSandbox::new("team-b")?;

    assert_eq!(
        first.container(&BoxId::new("box-1")?),
        "tinybox-team-a-box-1"
    );
    assert_ne!(
        first.container(&BoxId::new("box-1")?),
        first.container(&BoxId::new("box-11")?)
    );
    assert_ne!(
        first.container(&BoxId::new("box-1")?),
        second.container(&BoxId::new("box-1")?)
    );
    Ok(())
}

#[test]
fn a_map_is_ordered_by_its_names() {
    let mut map: OrderedMap<String> = OrderedMap::new();
    assert!(map.is_empty());
    for name in ["b", "a", "c", "ab", ""] {
        assert_eq!(map.insert(name.to_owned(), format!("{name}!")), None);
    }
    assert_eq!(
        map.insert("b".to_owned(), "again".to_owned()),
        Some("b!".to_owned())
    );

    let names: Vec<&str> = (0..map.len()).map(|i| map.at(i).0.as_str()).collect();
    assert_eq!(names, ["", "a", "ab", "b", "c"]);
    assert_eq!(map.get("b"), Some(&"again".to_owned()));
    assert_eq!(map.get("z"), None);
    assert!(map.contains_key("ab"));
    assert_eq!(map.remove("a"), Some("a!".to_owned()));
    assert_eq!(map.remove("a"), None);
    assert_eq!(map.len(), 4);

    let mut other: OrderedMap<String> = OrderedMap::new();
    other.insert("b".to_owned(), "other".to_owned());
    other.insert("d".to_owned(), "new".to_owned());
    map.extend(&other);
    assert_eq!(map.get("b"), Some(&"other".to_owned()));
    assert_eq!(map.get("c"), Some(&"c!".to_owned()));
    assert_eq!(map.len(), 5);
}

#[test]
fn names_are_ordered_as_strings_are() {
    for (left, right) in [("a", "b"), ("a", "ab"), ("", "a"), ("box-10", "box-2"), ("z", "é")] {
        assert!(left < right);
        assert_eq!(compare(left, right), Standing::Before);
        assert_eq!(compare(right, left), Standing::After);
        assert_eq!(compare(left, left), Standing::Same);
    }
}

#[test]
fn numbers_are_written_in_decimal() {
    for number in [0, 7, 10, 99, 100, 54321, u64::MAX] {
        assert_eq!(decimal(number), number.to_string());
    }
}

#[test]
fn text_is_split_joined_and_trimmed_as_strings_are() {
    for text in ["a=b=c", "=", "a=", "=b", "none", ""] {
        assert_eq!(
            split_once(text, '='),
            text.split_once('=')
                .map(|(before, after)| (before.to_owned(), after.to_owned()))
        );
    }
    for text in ["", "  ", " a b ", "a", "\u{a0}\u{2003}a\u{3000}\n", "\u{200b}a"] {
        assert_eq!(trim(text), text.trim());
    }
    let parts = vec!["a".to_owned(), String::new(), "c".to_owned()];
    assert_eq!(join(&parts, ", "), parts.join(", "));
    assert_eq!(join(&Vec::new(), ", "), "");
    assert_eq!(strip_prefix("sha-1", "sha-"), Some("1".to_owned()));
    assert_eq!(strip_prefix("sh", "sha-"), None);
}

#[test]
fn every_white_space_character_is_trimmed() {
    for code in 0..0x11_0000_u32 {
        if let Some(character) = char::from_u32(code) {
            assert_eq!(
                tinybox::text::space(character),
                character.is_whitespace(),
                "for {code:x}"
            );
        }
    }
}
