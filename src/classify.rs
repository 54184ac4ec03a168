//! Assigns a framework tag and a front-controller path to a project directory,
//! from the facts that a scan of the directory gathered.

use vstd::prelude::*;
use vstd::string::*;
use crate::text::{chars_of, contains_chars, occurs_in};

verus! {

/// The framework conventions that the classifier recognises.
#[derive(Clone, Copy, Debug, PartialEq, Eq, Structural)]
pub enum ProjectType {
    Laravel,
    WordPress,
    Symfony,
    CodeIgniter,
    Drupal,
    CakePHP,
    Php,
    Unknown,
}

/// What a scan of a project directory found. Each flag tells whether the
/// named entry exists directly under the project root.
#[derive(Clone, Debug)]
pub struct ProjectLayout {
    /// `artisan`
    pub artisan: bool,
    /// Contents of `composer.json`; `None` when it is absent or unreadable.
    pub composer_json: Option<String>,
    /// `wp-config.php`
    pub wp_config: bool,
    /// `wp-config-sample.php`
    pub wp_config_sample: bool,
    /// `wp-content`
    pub wp_content: bool,
    /// `symfony.lock`
    pub symfony_lock: bool,
    /// `config`
    pub config_dir: bool,
    /// `system`
    pub system_dir: bool,
    /// `application`
    pub application_dir: bool,
    /// `core`
    pub core_dir: bool,
    /// `sites`
    pub sites_dir: bool,
    /// `src`
    pub src_dir: bool,
    /// `public/index.php`
    pub public_index: bool,
    /// `web/index.php`
    pub web_index: bool,
    /// `webroot/index.php`
    pub webroot_index: bool,
    /// `index.php`
    pub index_php: bool,
    /// `app.php`
    pub app_php: bool,
    /// `main.php`
    pub main_php: bool,
    /// `start.php`
    pub start_php: bool,
    /// Names of the entries directly under the project root.
    pub entry_names: Vec<String>,
}

impl ProjectType {
    pub open spec fn spec_name(self) -> Seq<char> {
        match self {
            ProjectType::Laravel => "Laravel"@,
            ProjectType::WordPress => "WordPress"@,
            ProjectType::Symfony => "Symfony"@,
            ProjectType::CodeIgniter => "CodeIgniter"@,
            ProjectType::Drupal => "Drupal"@,
            ProjectType::CakePHP => "CakePHP"@,
            ProjectType::Php => "PHP"@,
            ProjectType::Unknown => "Unknown"@,
        }
    }

    /// The tag under which the project type is shown and stored.
    pub fn name(&self) -> (r: String)
        ensures
            r@ == self.spec_name(),
    {
        match self {
            ProjectType::Laravel => String::from_str("Laravel"),
            ProjectType::WordPress => String::from_str("WordPress"),
            ProjectType::Symfony => String::from_str("Symfony"),
            ProjectType::CodeIgniter => String::from_str("CodeIgniter"),
            ProjectType::Drupal => String::from_str("Drupal"),
            ProjectType::CakePHP => String::from_str("CakePHP"),
            ProjectType::Php => String::from_str("PHP"),
            ProjectType::Unknown => String::from_str("Unknown"),
        }
    }
}

/// The file name ends in a `.php` extension (a name that is only `.php` has none).
pub open spec fn has_php_extension(name: Seq<char>) -> bool {
    name.len() > 4 && name.subrange(name.len() - 4, name.len() as int) == ".php"@
}

/// Some entry of the listing has a `.php` extension.
pub open spec fn lists_php_file(names: Seq<String>) -> bool {
    exists|i: int| 0 <= i < names.len() && has_php_extension(#[trigger] names[i]@)
}

/// The manifest is present and mentions `needle`.
pub open spec fn manifest_mentions(l: ProjectLayout, needle: Seq<char>) -> bool {
    match l.composer_json {
        Some(c) => occurs_in(c@, needle),
        None => false,
    }
}

pub open spec fn is_laravel(l: ProjectLayout) -> bool {
    l.artisan && manifest_mentions(l, "laravel/framework"@)
}

pub open spec fn is_wordpress(l: ProjectLayout) -> bool {
    l.wp_config || l.wp_config_sample || l.wp_content
}

pub open spec fn is_symfony(l: ProjectLayout) -> bool {
    l.symfony_lock || (l.config_dir && manifest_mentions(l, "symfony/"@))
}

pub open spec fn is_codeigniter(l: ProjectLayout) -> bool {
    l.system_dir && l.application_dir
}

pub open spec fn is_drupal(l: ProjectLayout) -> bool {
    l.core_dir && l.sites_dir
}

pub open spec fn is_cakephp(l: ProjectLayout) -> bool {
    l.config_dir && l.src_dir && manifest_mentions(l, "cakephp/cakephp"@)
}

/// The first rule, in priority order, that the layout meets.
pub open spec fn classification(l: ProjectLayout) -> ProjectType {
    if is_laravel(l) {
        ProjectType::Laravel
    } else if is_wordpress(l) {
        ProjectType::WordPress
    } else if is_symfony(l) {
        ProjectType::Symfony
    } else if is_codeigniter(l) {
        ProjectType::CodeIgniter
    } else if is_drupal(l) {
        ProjectType::Drupal
    } else if is_cakephp(l) {
        ProjectType::CakePHP
    } else if lists_php_file(l.entry_names@) {
        ProjectType::Php
    } else {
        ProjectType::Unknown
    }
}

/// The front controller that a project of type `t` with layout `l` serves.
pub open spec fn entry_file_of(l: ProjectLayout, t: ProjectType) -> Seq<char> {
    match t {
        ProjectType::Laravel => if l.public_index { "public/index.php"@ } else { "index.php"@ },
        ProjectType::WordPress => if l.index_php { "index.php"@ } else { "wp-config.php"@ },
        ProjectType::Symfony => if l.public_index {
            "public/index.php"@
        } else if l.web_index {
            "web/index.php"@
        } else {
            "index.php"@
        },
        ProjectType::CodeIgniter => "index.php"@,
        ProjectType::Drupal => "index.php"@,
        ProjectType::CakePHP => if l.webroot_index { "webroot/index.php"@ } else { "index.php"@ },
        _ => if l.index_php {
            "index.php"@
        } else if l.app_php {
            "app.php"@
        } else if l.main_php {
            "main.php"@
        } else if l.start_php {
            "start.php"@
        } else {
            "index.php"@
        },
    }
}

/// Whether a directory entry's name has a `.php` extension.
pub fn is_php_file_name(name: &str) -> (r: bool)
    ensures
        r == has_php_extension(name@),
{
    let cs = chars_of(name);
    let ext = chars_of(".php");
    proof {
        reveal_strlit(".php");
    }
    if cs.len() <= 4 {
        return false;
    }
    let len: usize = cs.len();
    let start: usize = len - 4;
    let mut k: usize = 0;
    while k < 4
        invariant
            cs@ == name@,
            ext@ == ".php"@,
            ".php"@.len() == 4,
            len == cs@.len(),
            start == cs@.len() - 4,
            k <= 4,
            forall|m: int| 0 <= m < k ==> cs@[start + m] == ext@[m],
        decreases 4 - k,
    {
        if cs[start + k] != ext[k] {
            assert(cs@.subrange(start as int, cs@.len() as int)[k as int] != ext@[k as int]);
            return false;
        }
        k = k + 1;
    }
    assert(cs@.subrange(start as int, cs@.len() as int) =~= ext@);
    true
}

/// Whether the listing of a directory holds a file with a `.php` extension.
pub fn has_php_files(names: &Vec<String>) -> (r: bool)
    ensures
        r == lists_php_file(names@),
{
    let mut i: usize = 0;
    while i < names.len()
        invariant
            i <= names@.len(),
            forall|k: int| 0 <= k < i ==> !has_php_extension(#[trigger] names@[k]@),
        decreases names@.len() - i,
    {
        if is_php_file_name(names[i].as_str()) {
            return true;
        }
        i = i + 1;
    }
    false
}

fn manifest_has(manifest: &Option<Vec<char>>, needle: &str) -> (r: bool)
    ensures
        r == match manifest {
            Some(c) => occurs_in(c@, needle@),
            None => false,
        },
{
    match manifest {
        Some(c) => {
            let n = chars_of(needle);
            contains_chars(c, &n)
        },
        None => false,
    }
}

/// Classifies a project by the first rule, in priority order, that its layout meets.
pub fn detect_project_type(layout: &ProjectLayout) -> (r: ProjectType)
    ensures
        r == classification(*layout),
{
    let manifest: Option<Vec<char>> = match &layout.composer_json {
        Some(c) => Some(chars_of(c.as_str())),
        None => None,
    };
    if layout.artisan && manifest_has(&manifest, "laravel/framework") {
        return ProjectType::Laravel;
    }
    if layout.wp_config || layout.wp_config_sample || layout.wp_content {
        return ProjectType::WordPress;
    }
    if layout.symfony_lock || (layout.config_dir && manifest_has(&manifest, "symfony/")) {
        return ProjectType::Symfony;
    }
    if layout.system_dir && layout.application_dir {
        return ProjectType::CodeIgniter;
    }
    if layout.core_dir && layout.sites_dir {
        return ProjectType::Drupal;
    }
    if layout.config_dir && layout.src_dir && manifest_has(&manifest, "cakephp/cakephp") {
        return ProjectType::CakePHP;
    }
    if has_php_files(&layout.entry_names) {
        return ProjectType::Php;
    }
    ProjectType::Unknown
}

/// The front controller of a project of the given type, relative to its root.
/// Where no known candidate exists the result is a best guess.
pub fn find_entry_file(layout: &ProjectLayout, project_type: ProjectType) -> (r: String)
    ensures
        r@ == entry_file_of(*layout, project_type),
{
    match project_type {
        ProjectType::Laravel => if layout.public_index {
            String::from_str("public/index.php")
        } else {
            String::from_str("index.php")
        },
        ProjectType::WordPress => if layout.index_php {
            String::from_str("index.php")
        } else {
            String::from_str("wp-config.php")
        },
        ProjectType::Symfony => if layout.public_index {
            String::from_str("public/index.php")
        } else if layout.web_index {
            String::from_str("web/index.php")
        } else {
            String::from_str("index.php")
        },
        ProjectType::CodeIgniter => String::from_str("index.php"),
        ProjectType::Drupal => String::from_str("index.php"),
        ProjectType::CakePHP => if layout.webroot_index {
            String::from_str("webroot/index.php")
        } else {
            String::from_str("index.php")
        },
        _ => if layout.index_php {
            String::from_str("index.php")
        } else if layout.app_php {
            String::from_str("app.php")
        } else if layout.main_php {
            String::from_str("main.php")
        } else if layout.start_php {
            String::from_str("start.php")
        } else {
            String::from_str("index.php")
        },
    }
}

/// A directory with `artisan` and a manifest that mentions
/// `laravel/framework` is classified as Laravel.
pub proof fn lemma_laravel_detected(l: ProjectLayout)
    requires
        l.artisan,
        manifest_mentions(l, "laravel/framework"@),
    ensures
        classification(l) == ProjectType::Laravel,
{
}

/// Without one of the Laravel conditions, a directory with `wp-content` is
/// classified as WordPress.
pub proof fn lemma_wordpress_without_laravel(l: ProjectLayout)
    requires
        !l.artisan || !manifest_mentions(l, "laravel/framework"@),
        l.wp_content,
    ensures
        classification(l) == ProjectType::WordPress,
{
}

/// The Laravel rule takes priority over the WordPress rule when both hold.
pub proof fn lemma_laravel_before_wordpress(l: ProjectLayout)
    requires
        is_laravel(l),
        is_wordpress(l),
    ensures
        classification(l) == ProjectType::Laravel,
{
}

/// The entry file depends on the project type and on which candidate files
/// exist, and on nothing else.
pub proof fn lemma_entry_file_determined(l1: ProjectLayout, l2: ProjectLayout, t: ProjectType)
    requires
        l1.public_index == l2.public_index,
        l1.web_index == l2.web_index,
        l1.webroot_index == l2.webroot_index,
        l1.index_php == l2.index_php,
        l1.app_php == l2.app_php,
        l1.main_php == l2.main_php,
        l1.start_php == l2.start_php,
    ensures
        entry_file_of(l1, t) == entry_file_of(l2, t),
{
}

} // verus!
