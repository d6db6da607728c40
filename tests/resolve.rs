use gg_runtimes::java::{get_java_download_url, Java, JavaBundle};
use gg_runtimes::node::{
    alternate_file, official_downloads, official_file, resolve_official, resolve_unofficial,
    select_release, unofficial_downloads, IndexRecord, Lts, Node, Release,
};
use gg_runtimes::target::{route, Arch, Os, Provider, ResolveError, Runtime, Target, Variant};
use gg_runtimes::text::strip_marker;
use gg_runtimes::version::{parse_dotfile, resolve_constraint, satisfies, VersionConstraint};

fn target(os: Os, arch: Arch, musl: bool) -> Target {
    Target { os, arch, variant: if musl { Some(Variant::Musl) } else { None } }
}

fn bundle(os: &str, arch: &str, bits: &str, ext: &str, url: &str) -> JavaBundle {
    JavaBundle {
        os: os.to_string(),
        arch: arch.to_string(),
        hw_bitness: bits.to_string(),
        ext: ext.to_string(),
        url: url.to_string(),
    }
}

fn record(version: &str, files: &[&str], lts: Lts) -> IndexRecord {
    IndexRecord {
        version: version.to_string(),
        files: files.iter().map(|f| f.to_string()).collect(),
        lts,
        security: false,
    }
}

fn release(version: &str) -> Release {
    Release { version: version.to_string(), url: format!("https://example.org/{version}"), lts: false }
}

#[test]
fn routing_covers_every_target() {
    let all_os = [Os::Windows, Os::Linux, Os::Mac];
    let all_arch = [Arch::X86_64, Arch::Arm64, Arch::Armv7];
    for os in all_os {
        for arch in all_arch {
            for musl in [false, true] {
                let t = target(os, arch, musl);
                assert_eq!(route(Runtime::Java, &t), Provider::FlatRecords);
                let expected = if (os == Os::Linux && musl) || (os == Os::Windows && arch == Arch::Arm64) {
                    Provider::IndexedRecords
                } else {
                    Provider::TabularListing
                };
                assert_eq!(route(Runtime::Node, &t), expected);
            }
        }
    }
}

#[test]
fn java_first_match_wins() {
    let t = target(Os::Linux, Arch::X86_64, false);
    let catalog = vec![
        bundle("windows", "x86", "64", "zip", "https://a/win"),
        bundle("linux", "x86", "64", "tar.gz", "https://a/first"),
        bundle("linux", "x86", "64", "tar.gz", "https://a/second"),
        bundle("macos", "x86", "64", "tar.gz", "https://a/mac"),
    ];
    assert_eq!(get_java_download_url(&catalog, &t), Ok("https://a/first".to_string()));
    let short = vec![catalog[1].clone()];
    assert_eq!(get_java_download_url(&short, &t), Ok("https://a/first".to_string()));
}

#[test]
fn java_musl_target_needs_musl_tag() {
    let t = target(Os::Linux, Arch::X86_64, true);
    let plain = vec![bundle("linux", "x86", "64", "tar.gz", "https://a/glibc")];
    assert_eq!(get_java_download_url(&plain, &t), Err(ResolveError::UnsupportedTarget));
    let tagged = vec![
        bundle("linux", "x86", "64", "tar.gz", "https://a/glibc"),
        bundle("linux-musl", "x86", "64", "tar.gz", "https://a/musl"),
    ];
    assert_eq!(get_java_download_url(&tagged, &t), Ok("https://a/musl".to_string()));
}

#[test]
fn java_plain_target_accepts_musl_tagged_bundle() {
    let t = target(Os::Linux, Arch::X86_64, false);
    let catalog = vec![bundle("linux-musl", "x86", "64", "tar.gz", "https://a/musl")];
    assert_eq!(get_java_download_url(&catalog, &t), Ok("https://a/musl".to_string()));
}

#[test]
fn java_needs_matching_arch_and_ext() {
    let win = target(Os::Windows, Arch::X86_64, false);
    let catalog = vec![
        bundle("windows", "x86", "64", "msi", "https://a/msi"),
        bundle("windows", "x86", "32", "zip", "https://a/x86-32"),
        bundle("windows", "x86", "64", "zip", "https://a/zip"),
    ];
    assert_eq!(get_java_download_url(&catalog, &win), Ok("https://a/zip".to_string()));
    let arm = target(Os::Mac, Arch::Arm64, false);
    let catalog = vec![
        bundle("macos", "x86", "64", "tar.gz", "https://a/intel"),
        bundle("macos", "arm", "64", "tar.gz", "https://a/arm"),
    ];
    assert_eq!(get_java_download_url(&catalog, &arm), Ok("https://a/arm".to_string()));
    let sparc = vec![bundle("linux", "sparcv9", "64", "tar.gz", "https://a/sparc")];
    let t = target(Os::Linux, Arch::X86_64, false);
    assert_eq!(get_java_download_url(&sparc, &t), Err(ResolveError::UnsupportedTarget));
    assert_eq!(get_java_download_url(&vec![], &t), Err(ResolveError::UnsupportedTarget));
}

#[test]
fn alternate_index_picks_highest_admitted() {
    let t = target(Os::Linux, Arch::X86_64, true);
    let index = vec![
        record("v20.1.0", &["linux-x64-musl", "linux-arm64-musl"], Lts::Flag(false)),
        record("v20.0.0", &["linux-x64-musl"], Lts::Flag(false)),
        record("v18.5.0", &["linux-x64-musl"], Lts::Name("Hydrogen".to_string())),
    ];
    let c = VersionConstraint::parse("^18");
    assert!(c.is_some());
    let r = resolve_unofficial(&index, &t, &c).unwrap();
    assert_eq!(r.version, "v18.5.0");
    assert_eq!(
        r.url,
        "https://unofficial-builds.nodejs.org/download/release/v18.5.0/node-v18.5.0-linux-x64-musl.tar.gz"
    );
    assert!(r.lts);
    let newest = resolve_unofficial(&index, &t, &None).unwrap();
    assert_eq!(newest.version, "v20.1.0");
}

#[test]
fn alternate_index_without_the_build_is_unsupported() {
    let t = target(Os::Windows, Arch::Arm64, false);
    let index = vec![
        record("v20.1.0", &["linux-x64-musl"], Lts::Flag(false)),
        record("v18.5.0", &["win-x64-zip"], Lts::Flag(false)),
    ];
    assert!(unofficial_downloads(&index, &t).is_empty());
    assert_eq!(resolve_unofficial(&index, &t, &None), Err(ResolveError::UnsupportedTarget));
}

#[test]
fn alternate_index_zip_archive_names() {
    let t = target(Os::Windows, Arch::Arm64, false);
    assert_eq!(alternate_file(&t), ("win-arm64-zip", "win-arm64.zip"));
    let index = vec![record("v21.0.0", &["win-arm64-zip"], Lts::Flag(false))];
    let listing = unofficial_downloads(&index, &t);
    assert_eq!(listing.len(), 1);
    assert_eq!(
        listing[0].url,
        "https://unofficial-builds.nodejs.org/download/release/v21.0.0/node-v21.0.0-win-arm64.zip"
    );
    assert_eq!(alternate_file(&target(Os::Linux, Arch::Armv7, false)), ("linux-armv7l", "linux-armv7l.tar.gz"));
}

#[test]
fn constraint_with_no_admitted_release_is_unsupported() {
    let listing = vec![release("v20.1.0"), release("v19.0.0")];
    let c = VersionConstraint::parse("^18");
    assert_eq!(select_release(&listing, &c), Err(ResolveError::UnsupportedTarget));
    assert_eq!(select_release(&vec![], &None), Err(ResolveError::UnsupportedTarget));
}

#[test]
fn unparsable_release_versions_are_skipped_under_a_constraint() {
    let listing = vec![release("latest"), release("v18.1.0")];
    let c = VersionConstraint::parse(">=18");
    assert_eq!(select_release(&listing, &c).unwrap().version, "v18.1.0");
    assert_eq!(select_release(&listing, &None).unwrap().version, "latest");
}

const TABLE: &str = "<html><body><table id=\"tbVersions\"><tbody>\
<tr><td data-label=\"Version\">Node.js 20.1.0</td><td data-label=\"LTS\"></td><td>x</td></tr>\
<tr><td data-label=\"Date\">2023-01-01</td></tr>\
<tr><td data-label=\"Version\">Node.js 18.16.0</td><td data-label=\"LTS\">Hydrogen</td></tr>\
</tbody></table></body></html>";

#[test]
fn official_table_rows_become_releases() {
    let t = target(Os::Linux, Arch::Arm64, false);
    let listing = official_downloads(TABLE, &t);
    assert_eq!(listing.len(), 2);
    assert_eq!(listing[0].version, "20.1.0");
    assert_eq!(listing[0].url, "https://nodejs.org/download/release/v20.1.0/node-v20.1.0-linux-arm64.tar.gz");
    assert!(!listing[0].lts);
    assert_eq!(listing[1].version, "18.16.0");
    assert!(listing[1].lts);
    let c = VersionConstraint::parse("^18");
    let r = resolve_official(TABLE, &t, &c).unwrap();
    assert_eq!(r.url, "https://nodejs.org/download/release/v18.16.0/node-v18.16.0-linux-arm64.tar.gz");
    assert_eq!(resolve_official("<html></html>", &t, &None), Err(ResolveError::UnsupportedTarget));
}

#[test]
fn official_file_names() {
    assert_eq!(official_file(&target(Os::Windows, Arch::Arm64, false)), "win-x64.zip");
    assert_eq!(official_file(&target(Os::Linux, Arch::Armv7, false)), "linux-armv7l.tar.gz");
    assert_eq!(official_file(&target(Os::Linux, Arch::X86_64, false)), "linux-x64.tar.gz");
    assert_eq!(official_file(&target(Os::Mac, Arch::Arm64, false)), "darwin-arm64.tar.gz");
    assert_eq!(official_file(&target(Os::Mac, Arch::X86_64, false)), "darwin-x64.tar.gz");
}

#[test]
fn dotfile_marker_is_stripped() {
    let c = parse_dotfile("v18.2.0").unwrap();
    assert_eq!(c.as_str(), "18.2.0");
    let c = parse_dotfile("v18.2.0\n").unwrap();
    assert_eq!(c.as_str(), "18.2.0");
    assert!(satisfies(&Some(c), "v18.2.0"));
}

#[test]
fn dotfile_with_other_text_gives_no_constraint() {
    assert!(parse_dotfile("lts/hydrogen").is_none());
    assert!(parse_dotfile("not a version").is_none());
}

#[test]
fn manifest_decides_before_dotfile() {
    let c = resolve_constraint(Some(">=16"), Some("v18.2.0")).unwrap();
    assert_eq!(c.as_str(), ">=16");
    assert!(resolve_constraint(Some("garbage!"), Some("v18.2.0")).is_none());
    let c = resolve_constraint(None, Some("v18.2.0")).unwrap();
    assert_eq!(c.as_str(), "18.2.0");
    assert!(resolve_constraint(None, None).is_none());
}

#[test]
fn resolution_is_repeatable() {
    let t = target(Os::Linux, Arch::X86_64, true);
    let index = vec![
        record("v20.1.0", &["linux-x64-musl"], Lts::Flag(false)),
        record("v18.5.0", &["linux-x64-musl"], Lts::Flag(false)),
    ];
    let c = VersionConstraint::parse("^18");
    assert_eq!(resolve_unofficial(&index, &t, &c), resolve_unofficial(&index, &t, &c));
    let catalog = vec![bundle("linux-musl", "x86", "64", "tar.gz", "https://a/musl")];
    assert_eq!(get_java_download_url(&catalog, &t), get_java_download_url(&catalog, &t));
}

#[test]
fn constraint_matching() {
    let c = VersionConstraint::parse("~20.1").unwrap();
    assert!(c.admits("v20.1.7"));
    assert!(c.admits("20.1.0"));
    assert!(!c.admits("v20.2.0"));
    assert!(!c.admits("vv20.1.0"));
    assert!(VersionConstraint::parse("not a range").is_none());
}

#[test]
fn marker_strip() {
    assert_eq!(strip_marker("v1.2.3"), "1.2.3");
    assert_eq!(strip_marker("1.2.3"), "1.2.3");
    assert_eq!(strip_marker(""), "");
}

#[test]
fn lts_flag() {
    assert!(Lts::Name("Iron".to_string()).is_lts());
    assert!(!Lts::Flag(false).is_lts());
}

#[test]
fn executable_paths() {
    let win = target(Os::Windows, Arch::X86_64, false);
    let lin = target(Os::Linux, Arch::X86_64, false);
    assert_eq!(Java {}.get_bin(&win), "bin/java.exe");
    assert_eq!(Java {}.get_bin(&lin), "bin/java");
    assert_eq!(Java {}.get_path(), "java");
    let node = Node { cmd: "node".to_string() };
    let npm = Node { cmd: "npm".to_string() };
    let npx = Node { cmd: "npx".to_string() };
    assert_eq!(node.get_bin(&win), "node.exe");
    assert_eq!(npm.get_bin(&win), "npm.cmd");
    assert_eq!(npx.get_bin(&win), "npx.cmd");
    assert_eq!(node.get_bin(&lin), "bin/node");
    assert_eq!(npm.get_bin(&lin), "bin/npm");
    assert_eq!(npx.get_bin(&lin), "bin/npx");
    assert_eq!(node.get_name(), "node");
}
