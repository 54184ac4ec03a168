use php_bundler::bundle::{
    bundle_php_runtime, copy_project_files, copy_step, create_executable, create_linux_launcher,
    create_macos_launcher, create_platform_executable, create_windows_launcher, join_path,
    parse_platform, prepare_build_environment, project_source_dir, render_runtime_descriptor,
    BuildConfig, CopyStep, Platform,
};
use php_bundler::dependencies::{check_install, get_project_dependencies, install_args, install_outcome};
use php_bundler::descriptor::parse_runtime_descriptor;
use php_bundler::error::BundleError;
use php_bundler::text::decimal;

fn config(platforms: &[&str]) -> BuildConfig {
    BuildConfig {
        target_platforms: platforms.iter().map(|p| p.to_string()).collect(),
        app_name: "Shop".to_string(),
        app_version: "1.2.0".to_string(),
        app_icon: None,
        window_width: 1200,
        window_height: 800,
        php_version: "8.2".to_string(),
        output_dir: "out".to_string(),
        server_port: None,
    }
}

#[test]
fn windows_launcher_text() {
    assert_eq!(
        create_windows_launcher(&config(&[])),
        "@echo off\ntitle Shop\ncd /d \"%~dp0\"\nphp -S localhost:1200 -t app\npause\n"
    );
}

#[test]
fn posix_launcher_text() {
    let expected = "#!/bin/bash\ncd \"$(dirname \"$0\")\"\necho \"Starting Shop Server...\"\nphp -S localhost:1200 -t app\n";
    assert_eq!(create_linux_launcher(&config(&[])), expected);
    assert_eq!(create_macos_launcher(&config(&[])), expected);
}

#[test]
fn dedicated_server_port_is_used() {
    let mut c = config(&[]);
    c.server_port = Some(8765);
    assert!(create_linux_launcher(&c).contains("php -S localhost:8765 -t app"));
    assert!(create_windows_launcher(&c).contains("php -S localhost:8765 -t app"));
}

#[test]
fn platform_tags() {
    assert_eq!(parse_platform(&"macos-arm64".to_string()), Ok(Platform::MacosArm64));
    assert_eq!(parse_platform(&"windows-x64".to_string()), Ok(Platform::WindowsX64));
    assert_eq!(
        parse_platform(&"Linux-x64".to_string()),
        Err(BundleError::UnsupportedPlatform("Linux-x64".to_string()))
    );
    assert_eq!(Platform::LinuxX64.tag(), "linux-x64");
}

#[test]
fn windows_artifact() {
    let a = create_platform_executable("./build/shop", Platform::WindowsX64, &config(&[]));
    assert_eq!(a.dir, "./build/shop/dist/windows-x64");
    assert_eq!(a.path, "./build/shop/dist/windows-x64/Shop.exe");
    assert!(!a.executable);
    assert!(a.content.starts_with("@echo off"));
}

#[test]
fn artifacts_for_all_platforms() {
    let c = config(&["windows-x64", "macos-x64", "macos-arm64", "linux-x64"]);
    let v = create_executable("./build/shop", &c).unwrap();
    let paths: Vec<&str> = v.iter().map(|a| a.path.as_str()).collect();
    assert_eq!(paths, vec![
        "./build/shop/dist/windows-x64/Shop.exe",
        "./build/shop/dist/macos-x64/Shop",
        "./build/shop/dist/macos-arm64/Shop",
        "./build/shop/dist/linux-x64/Shop",
    ]);
    assert!(v[1].executable && v[2].executable && v[3].executable);
}

#[test]
fn unsupported_platform_fails_before_anything_is_written() {
    let c = config(&["linux-x64", "bogus-platform"]);
    assert_eq!(
        create_executable("./build/shop", &c).unwrap_err(),
        BundleError::UnsupportedPlatform("bogus-platform".to_string())
    );
}

#[test]
fn first_unsupported_platform_is_reported() {
    let c = config(&["x", "y"]);
    assert_eq!(create_executable("b", &c).unwrap_err(), BundleError::UnsupportedPlatform("x".to_string()));
}

#[test]
fn no_platforms_gives_no_launchers() {
    assert!(create_executable("b", &config(&[])).unwrap().is_empty());
}

#[test]
fn rebuild_gives_same_tree() {
    let c = config(&["linux-x64", "windows-x64"]);
    let l1 = prepare_build_environment("blog");
    let l2 = prepare_build_environment("blog");
    assert_eq!(l1.root, l2.root);
    assert_eq!(l1.app_dir, "./build/blog/app");
    assert_eq!(l1.runtime_dir, "./build/blog/runtime");
    assert_eq!(l1.dist_dir, "./build/blog/dist");
    assert_eq!(l1.descriptor_path, "./build/blog/runtime/php.conf");
    let a1: Vec<String> = create_executable(&l1.root, &c).unwrap().into_iter().map(|a| a.path).collect();
    let a2: Vec<String> = create_executable(&l2.root, &c).unwrap().into_iter().map(|a| a.path).collect();
    assert_eq!(a1, a2);
}

#[test]
fn project_copy_job() {
    assert_eq!(project_source_dir("shop"), "./projects/shop");
    let job = copy_project_files("shop", "./build/shop", true).unwrap();
    assert_eq!(job.source, "./projects/shop");
    assert_eq!(job.dest, "./build/shop/app");
    assert!(matches!(copy_project_files("shop", "./build/shop", false), Err(BundleError::CopyFailed(_))));
}

#[test]
fn copy_steps() {
    match copy_step("a", "b", "sub", true) {
        CopyStep::Descend { source, dest } => {
            assert_eq!(source, "a/sub");
            assert_eq!(dest, "b/sub");
        }
        _ => panic!("expected a directory step"),
    }
    assert!(matches!(copy_step("a", "b", "f.php", false), CopyStep::CopyFile { .. }));
    assert_eq!(join_path("x", "y"), "x/y");
}

#[test]
fn descriptor_text() {
    let text = render_runtime_descriptor("8.2.12", "Core\ndate\njson", &config(&[]));
    assert_eq!(
        text,
        "[PHP Runtime Configuration]\nversion = 8.2.12\napp_name = Shop\napp_version = 1.2.0\noutput_dir = out\n\n[Extensions]\nCore\ndate\njson\n"
    );
}

#[test]
fn descriptor_round_trip() {
    let c = config(&[]);
    let text = render_runtime_descriptor("8.3.0", "[PHP Modules]\nCore\n", &c);
    let d = parse_runtime_descriptor(&text).unwrap();
    assert_eq!(d.version, "8.3.0");
    assert_eq!(d.app_name, "Shop");
    assert_eq!(d.app_version, "1.2.0");
    assert_eq!(d.output_dir, "out");
}

#[test]
fn descriptor_parse_rejects_other_text() {
    assert!(parse_runtime_descriptor("").is_none());
    assert!(parse_runtime_descriptor("version = 1\n").is_none());
    assert!(parse_runtime_descriptor("[PHP Runtime Configuration]\nversion = 1").is_none());
}

#[test]
fn runtime_stage_outcomes() {
    let c = config(&[]);
    let v = Some("8.2".to_string());
    let x = Some("Core".to_string());
    assert_eq!(bundle_php_runtime(false, &v, &x, &c), Err(BundleError::RuntimeUnavailable));
    assert_eq!(bundle_php_runtime(true, &None, &x, &c), Err(BundleError::RuntimeUnavailable));
    assert_eq!(bundle_php_runtime(true, &v, &None, &c), Err(BundleError::RuntimeUnavailable));
    assert_eq!(bundle_php_runtime(true, &v, &x, &c).unwrap(), render_runtime_descriptor("8.2", "Core", &c));
}

#[test]
fn decimal_numerals() {
    assert_eq!(decimal(0), "0");
    assert_eq!(decimal(7), "7");
    assert_eq!(decimal(10), "10");
    assert_eq!(decimal(4294967295), "4294967295");
}

#[test]
fn dependencies_from_manifest() {
    assert!(get_project_dependencies(&None).is_empty());
    let m = Some("{\"require\": {\"symfony/yaml\": \"*\", \"guzzlehttp/guzzle\": \"^7\", \"laravel/framework\": \"^10\"}}".to_string());
    assert_eq!(get_project_dependencies(&m), vec!["laravel/framework", "guzzlehttp/guzzle", "symfony/console"]);
    assert!(get_project_dependencies(&Some("{}".to_string())).is_empty());
}

#[test]
fn install_decisions() {
    assert_eq!(install_args(), vec!["install", "--no-dev", "--optimize-autoloader"]);
    assert_eq!(check_install(false, true), Err(BundleError::InvalidPath));
    assert_eq!(check_install(true, false), Err(BundleError::ToolUnavailable));
    assert_eq!(check_install(true, true), Ok(()));
    assert_eq!(install_outcome(Ok((true, String::new()))), Ok(()));
    assert_eq!(install_outcome(Ok((false, "boom".to_string()))), Err(BundleError::InstallFailed("boom".to_string())));
    assert_eq!(install_outcome(Err("missing".to_string())), Err(BundleError::InstallFailed("missing".to_string())));
}
