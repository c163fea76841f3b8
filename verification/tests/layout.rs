use zed_turborepo::layout::{
    binaries_among, binary_path_in, candidate_paths, cleanup_old_versions, output_dir_of,
    version_dir_name,
};
use zed_turborepo::text::join;

fn names(items: &[&str]) -> Vec<String> {
    items.iter().map(|item| item.to_string()).collect()
}

#[test]
fn version_directory_and_the_paths_below_it() {
    assert_eq!(version_dir_name("2.3.1"), "turbo-vsc-2.3.1");
    assert_eq!(version_dir_name(""), "turbo-vsc-");
    assert_eq!(output_dir_of("turbo-vsc-2.3.1"), "turbo-vsc-2.3.1/extension/out");
    assert_eq!(
        binary_path_in("turbo-vsc-2.3.1", "turborepo-lsp-linux-x64"),
        "turbo-vsc-2.3.1/extension/out/turborepo-lsp-linux-x64"
    );
}

#[test]
fn candidates_are_the_version_directories_in_listing_order() {
    let entries = names(&["src", "turbo-vsc-2.0.0", "turbo-vsc", "turbo-vsc-1.0.0", "xturbo-vsc-3"]);
    assert_eq!(
        candidate_paths(&entries, "turborepo-lsp-darwin-arm64"),
        names(&[
            "turbo-vsc-2.0.0/extension/out/turborepo-lsp-darwin-arm64",
            "turbo-vsc-1.0.0/extension/out/turborepo-lsp-darwin-arm64",
        ])
    );
    assert_eq!(candidate_paths(&names(&[]), "x"), names(&[]));
    assert_eq!(candidate_paths(&names(&["a", "b"]), "x"), names(&[]));
}

#[test]
fn stale_directories_are_the_other_version_directories() {
    let entries = names(&["turbo-vsc-1.0.0", "src", "turbo-vsc-2.3.1", "turbo-vsc-2.0.0", "turbo"]);
    assert_eq!(
        cleanup_old_versions(&entries, &"turbo-vsc-2.3.1".to_string()),
        names(&["turbo-vsc-1.0.0", "turbo-vsc-2.0.0"])
    );
    assert_eq!(
        cleanup_old_versions(&entries, &"turbo-vsc-9".to_string()),
        names(&["turbo-vsc-1.0.0", "turbo-vsc-2.3.1", "turbo-vsc-2.0.0"])
    );
    assert_eq!(cleanup_old_versions(&names(&["turbo-vsc-1"]), &"turbo-vsc-1".to_string()), names(&[]));
}

#[test]
fn published_binaries_are_told_by_their_prefix() {
    let entries = names(&["turborepo-lsp-linux-x64", "extension.js", "turborepo-lsp", "turborepo-lsp-win32-x64.exe"]);
    assert_eq!(
        binaries_among(&entries),
        names(&["turborepo-lsp-linux-x64", "turborepo-lsp-win32-x64.exe"])
    );
}

#[test]
fn join_puts_the_separator_between_neighbours() {
    assert_eq!(join(&names(&[]), ", "), "");
    assert_eq!(join(&names(&["a"]), ", "), "a");
    assert_eq!(join(&names(&["a", "b", "c"]), ", "), "a, b, c");
    assert_eq!(join(&names(&["", ""]), "-"), "-");
}
