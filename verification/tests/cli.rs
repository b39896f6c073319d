use cradle::cli::{client, server, Cli, Mode, Verbosity};
use std::path::PathBuf;

#[test]
fn verbosity_orders_from_fatal_to_info() {
    assert!(Verbosity::Fatal < Verbosity::Error);
    assert!(Verbosity::Error < Verbosity::Warning);
    assert!(Verbosity::Warning < Verbosity::Debug);
    assert!(Verbosity::Debug < Verbosity::Info);
}

#[test]
fn modes_run_without_effect() {
    let args = Cli { config_file: Some(PathBuf::from("cradle.toml")), verbosity: None, mode: Mode::Server };
    server::run(args);
    let args = Cli { config_file: None, verbosity: Some(Verbosity::Info), mode: Mode::Client };
    client::run(args);
}
