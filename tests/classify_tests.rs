use php_bundler::classify::{detect_project_type, find_entry_file, has_php_files, is_php_file_name, ProjectLayout, ProjectType};
use php_bundler::error::BundleError;
use php_bundler::project::{import_php_project, new_project_record, project_name};

fn empty_layout() -> ProjectLayout {
    ProjectLayout {
        artisan: false,
        composer_json: None,
        wp_config: false,
        wp_config_sample: false,
        wp_content: false,
        symfony_lock: false,
        config_dir: false,
        system_dir: false,
        application_dir: false,
        core_dir: false,
        sites_dir: false,
        src_dir: false,
        public_index: false,
        web_index: false,
        webroot_index: false,
        index_php: false,
        app_php: false,
        main_php: false,
        start_php: false,
        entry_names: vec![],
    }
}

fn laravel_layout() -> ProjectLayout {
    let mut l = empty_layout();
    l.artisan = true;
    l.composer_json = Some("{\"require\": {\"laravel/framework\": \"^10.0\"}}".to_string());
    l
}

#[test]
fn laravel_is_detected() {
    assert_eq!(detect_project_type(&laravel_layout()), ProjectType::Laravel);
}

#[test]
fn laravel_without_artisan_and_with_wp_content_is_wordpress() {
    let mut l = laravel_layout();
    l.artisan = false;
    l.wp_content = true;
    assert_eq!(detect_project_type(&l), ProjectType::WordPress);
}

#[test]
fn laravel_without_framework_mention_and_with_wp_content_is_wordpress() {
    let mut l = laravel_layout();
    l.composer_json = Some("{\"require\": {}}".to_string());
    l.wp_content = true;
    assert_eq!(detect_project_type(&l), ProjectType::WordPress);
}

#[test]
fn laravel_takes_priority_over_wordpress() {
    let mut l = laravel_layout();
    l.wp_config = true;
    l.wp_content = true;
    assert_eq!(detect_project_type(&l), ProjectType::Laravel);
}

#[test]
fn symfony_lock_alone_is_symfony() {
    let mut l = empty_layout();
    l.symfony_lock = true;
    assert_eq!(detect_project_type(&l), ProjectType::Symfony);
}

#[test]
fn symfony_manifest_needs_config_dir() {
    let mut l = empty_layout();
    l.composer_json = Some("{\"require\": {\"symfony/console\": \"*\"}}".to_string());
    assert_eq!(detect_project_type(&l), ProjectType::Unknown);
    l.config_dir = true;
    assert_eq!(detect_project_type(&l), ProjectType::Symfony);
}

#[test]
fn codeigniter_and_drupal_are_detected() {
    let mut l = empty_layout();
    l.system_dir = true;
    l.application_dir = true;
    assert_eq!(detect_project_type(&l), ProjectType::CodeIgniter);
    let mut d = empty_layout();
    d.core_dir = true;
    d.sites_dir = true;
    assert_eq!(detect_project_type(&d), ProjectType::Drupal);
}

#[test]
fn cakephp_is_detected() {
    let mut l = empty_layout();
    l.config_dir = true;
    l.src_dir = true;
    l.composer_json = Some("{\"require\": {\"cakephp/cakephp\": \"4.*\"}}".to_string());
    assert_eq!(detect_project_type(&l), ProjectType::CakePHP);
    l.src_dir = false;
    assert_eq!(detect_project_type(&l), ProjectType::Unknown);
}

#[test]
fn plain_php_and_unknown() {
    let mut l = empty_layout();
    l.entry_names = vec!["README.md".to_string(), "hello.php".to_string()];
    assert_eq!(detect_project_type(&l), ProjectType::Php);
    l.entry_names = vec!["README.md".to_string(), ".php".to_string(), "php".to_string()];
    assert_eq!(detect_project_type(&l), ProjectType::Unknown);
}

#[test]
fn php_file_names() {
    assert!(is_php_file_name("index.php"));
    assert!(is_php_file_name("a.b.php"));
    assert!(!is_php_file_name(".php"));
    assert!(!is_php_file_name("index.phps"));
    assert!(!is_php_file_name(""));
    assert!(!has_php_files(&vec![]));
    assert!(has_php_files(&vec!["x".to_string(), "y.php".to_string()]));
}

#[test]
fn laravel_entry_with_only_index_php() {
    let mut l = laravel_layout();
    l.index_php = true;
    assert_eq!(find_entry_file(&l, ProjectType::Laravel), "index.php");
    l.public_index = true;
    assert_eq!(find_entry_file(&l, ProjectType::Laravel), "public/index.php");
}

#[test]
fn entry_files_per_type() {
    let mut l = empty_layout();
    assert_eq!(find_entry_file(&l, ProjectType::WordPress), "wp-config.php");
    assert_eq!(find_entry_file(&l, ProjectType::Symfony), "index.php");
    assert_eq!(find_entry_file(&l, ProjectType::CakePHP), "index.php");
    assert_eq!(find_entry_file(&l, ProjectType::Unknown), "index.php");
    l.web_index = true;
    assert_eq!(find_entry_file(&l, ProjectType::Symfony), "web/index.php");
    l.public_index = true;
    assert_eq!(find_entry_file(&l, ProjectType::Symfony), "public/index.php");
    l.webroot_index = true;
    assert_eq!(find_entry_file(&l, ProjectType::CakePHP), "webroot/index.php");
    assert_eq!(find_entry_file(&l, ProjectType::CodeIgniter), "index.php");
    assert_eq!(find_entry_file(&l, ProjectType::Drupal), "index.php");
    l.start_php = true;
    assert_eq!(find_entry_file(&l, ProjectType::Php), "start.php");
    l.main_php = true;
    assert_eq!(find_entry_file(&l, ProjectType::Php), "main.php");
    l.app_php = true;
    assert_eq!(find_entry_file(&l, ProjectType::Php), "app.php");
    l.index_php = true;
    assert_eq!(find_entry_file(&l, ProjectType::Php), "index.php");
    assert_eq!(find_entry_file(&l, ProjectType::WordPress), "index.php");
}

#[test]
fn project_type_names() {
    assert_eq!(ProjectType::Php.name(), "PHP");
    assert_eq!(ProjectType::CakePHP.name(), "CakePHP");
    assert_eq!(ProjectType::Unknown.name(), "Unknown");
}

#[test]
fn project_names_from_paths() {
    assert_eq!(project_name("/home/me/sites/blog"), "blog");
    assert_eq!(project_name("/home/me/sites/blog//"), "blog");
    assert_eq!(project_name("blog"), "blog");
    assert_eq!(project_name("/"), "");
}

#[test]
fn import_rejects_non_directory() {
    let r = import_php_project("/tmp/nothing", false, &empty_layout());
    assert!(matches!(r, Err(BundleError::InvalidPath)));
}

#[test]
fn import_builds_record() {
    let p = import_php_project("/srv/www/shop/", true, &laravel_layout()).unwrap();
    assert_eq!(p.id.len(), 36);
    assert_eq!(p.id.matches('-').count(), 4);
    assert_eq!(p.name, "shop");
    assert_eq!(p.path, "/srv/www/shop/");
    assert_eq!(p.project_type, "Laravel");
    assert_eq!(p.entry_file, "index.php");
    assert_eq!(p.created_at, p.last_modified);
    assert!(p.created_at.contains('T'));
    let q = import_php_project("/srv/www/shop/", true, &laravel_layout()).unwrap();
    assert_ne!(p.id, q.id);
}

#[test]
fn record_from_given_values() {
    let p = new_project_record("/x/wp", &{
        let mut l = empty_layout();
        l.wp_config_sample = true;
        l
    }, "id-1".to_string(), "2024-01-01T00:00:00+00:00".to_string());
    assert_eq!(p.id, "id-1");
    assert_eq!(p.name, "wp");
    assert_eq!(p.project_type, "WordPress");
    assert_eq!(p.entry_file, "wp-config.php");
    assert_eq!(p.created_at, "2024-01-01T00:00:00+00:00");
}
