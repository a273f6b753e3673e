//! Which paths a search looks at.

use crate::editing::normalize::lowercase_of;
use crate::paths::{
    components, extension, file_name, list_contains, list_has, path_components, path_extension,
    path_file_name, texts,
};
use crate::text::{from_chars, string_texts, to_chars};
use vstd::prelude::*;

verus! {

/// What a search leaves out. A field that is `None` takes its default.
#[derive(Debug, Clone)]
pub struct SearchFilteringConfig {
    pub enabled: Option<bool>,
    pub exclude_dirs: Option<Vec<String>>,
    pub exclude_extensions: Option<Vec<String>>,
    pub exclude_hidden: Option<bool>,
}

/// The directories left out by default.
pub open spec fn default_exclude_dirs() -> Seq<Seq<char>> {
    seq![
        "target"@,
        "node_modules"@,
        "__pycache__"@,
        "dist"@,
        "build"@,
        ".git"@,
        ".svn"@,
        ".hg"@,
        "venv"@,
        "env"@,
        ".venv"@,
    ]
}

/// The file extensions left out by default.
pub open spec fn default_exclude_extensions() -> Seq<Seq<char>> {
    seq![
        "exe"@,
        "dll"@,
        "so"@,
        "dylib"@,
        "a"@,
        "o"@,
        "pyc"@,
        "png"@,
        "jpg"@,
        "jpeg"@,
        "gif"@,
        "bmp"@,
        "ico"@,
        "mp3"@,
        "mp4"@,
        "avi"@,
        "mov"@,
        "wav"@,
        "pdf"@,
        "zip"@,
        "tar"@,
        "gz"@,
        "rar"@,
        "7z"@,
    ]
}

/// The texts of a list of string slices, as strings of their own.
pub fn owned_list(items: &[&str]) -> (r: Vec<String>)
    ensures
        r.len() == items.len(),
        forall|i: int| 0 <= i < r.len() ==> (#[trigger] r[i])@ == items[i]@,
{
    let mut r: Vec<String> = Vec::new();
    let mut i: usize = 0;
    while i < items.len()
        invariant
            i <= items.len(),
            r.len() == i,
            forall|j: int| 0 <= j < r.len() ==> (#[trigger] r[j])@ == items[j]@,
        decreases items.len() - i,
    {
        r.push(items[i].to_owned());
        i += 1;
    }
    r
}

impl Default for SearchFilteringConfig {
    fn default() -> (r: Self)
        ensures
            r.enabled == Some(true),
            r.exclude_hidden == Some(true),
            r.exclude_dirs matches Some(d) && string_texts(d@) == default_exclude_dirs(),
            r.exclude_extensions matches Some(e) && string_texts(e@) == default_exclude_extensions(),
    {
        let dirs = vec![
            "target",
            "node_modules",
            "__pycache__",
            "dist",
            "build",
            ".git",
            ".svn",
            ".hg",
            "venv",
            "env",
            ".venv",
        ];
        let exts = vec![
            "exe",
            "dll",
            "so",
            "dylib",
            "a",
            "o",
            "pyc",
            "png",
            "jpg",
            "jpeg",
            "gif",
            "bmp",
            "ico",
            "mp3",
            "mp4",
            "avi",
            "mov",
            "wav",
            "pdf",
            "zip",
            "tar",
            "gz",
            "rar",
            "7z",
        ];
        let d = owned_list(dirs.as_slice());
        let e = owned_list(exts.as_slice());
        assert(string_texts(d@) == default_exclude_dirs());
        assert(string_texts(e@) == default_exclude_extensions());
        SearchFilteringConfig {
            enabled: Some(true),
            exclude_dirs: Some(d),
            exclude_extensions: Some(e),
            exclude_hidden: Some(true),
        }
    }
}

/// A filter that decides by a configuration which paths a search looks at.
pub struct ConfigurableFilter {
    pub config: SearchFilteringConfig,
}

/// Whether the filter is switched on: it is unless the configuration says
/// otherwise.
pub open spec fn filter_enabled(config: SearchFilteringConfig) -> bool {
    match config.enabled {
        Some(b) => b,
        None => true,
    }
}

/// Whether hidden files are left out: they are unless the configuration
/// says otherwise.
pub open spec fn hides_hidden(config: SearchFilteringConfig) -> bool {
    match config.exclude_hidden {
        Some(b) => b,
        None => true,
    }
}

/// Whether the path's file name starts with a dot.
pub open spec fn is_hidden(path: Seq<char>) -> bool {
    match file_name(path) {
        Some(name) => name.len() > 0 && name[0] == '.',
        None => false,
    }
}

/// Whether one of the path's components is an excluded directory.
pub open spec fn in_excluded_dir(config: SearchFilteringConfig, path: Seq<char>) -> bool {
    match config.exclude_dirs {
        Some(dirs) => exists|i: int|
            0 <= i < components(path).len() && list_has(dirs@, #[trigger] components(path)[i]),
        None => false,
    }
}

/// Whether the path's extension, in lower case, is an excluded one.
pub open spec fn has_excluded_extension(config: SearchFilteringConfig, path: Seq<char>) -> bool {
    match (extension(path), config.exclude_extensions) {
        (Some(ext), Some(exts)) => list_has(exts@, lowercase_of(ext)),
        _ => false,
    }
}

/// Whether a search looks at `path`: always with the filter off; else
/// unless the path is hidden, lies in an excluded directory, or has an
/// excluded extension.
pub open spec fn includes_path(config: SearchFilteringConfig, path: Seq<char>) -> bool {
    !filter_enabled(config) || !((hides_hidden(config) && is_hidden(path)) || in_excluded_dir(
        config,
        path,
    ) || has_excluded_extension(config, path))
}

impl ConfigurableFilter {
    /// A filter with the configuration given, or the default one.
    pub fn new(config: Option<SearchFilteringConfig>) -> (r: Self)
        ensures
            config matches Some(c) ==> r.config == c,
            config is None ==> r.config.enabled == Some(true) && r.config.exclude_hidden == Some(
                true,
            ) && (r.config.exclude_dirs matches Some(d) && string_texts(d@) == default_exclude_dirs())
                && (r.config.exclude_extensions matches Some(e) && string_texts(e@)
                == default_exclude_extensions()),
    {
        match config {
            Some(c) => ConfigurableFilter { config: c },
            None => ConfigurableFilter { config: SearchFilteringConfig::default() },
        }
    }

    /// Whether the filter is switched on.
    pub fn is_enabled(&self) -> (r: bool)
        ensures
            r == filter_enabled(self.config),
    {
        match self.config.enabled {
            Some(b) => b,
            None => true,
        }
    }

    /// Whether a search looks at `path`.
    pub fn should_include_path(&self, path: &str) -> (r: bool)
        ensures
            r == includes_path(self.config, path@),
    {
        if !self.is_enabled() {
            return true;
        }
        let hide = match self.config.exclude_hidden {
            Some(b) => b,
            None => true,
        };
        if hide {
            match path_file_name(path) {
                Some(name) => {
                    if name.len() > 0 && name[0] == '.' {
                        return false;
                    }
                },
                None => {},
            }
        }
        match &self.config.exclude_dirs {
            Some(dirs) => {
                let comps = path_components(path);
                assert(texts(comps@).len() == comps.len());
                let mut found = false;
                let mut i: usize = 0;
                while i < comps.len() && !found
                    invariant
                        i <= comps.len(),
                        texts(comps@) == components(path@),
                        !found ==> forall|j: int|
                            0 <= j < i ==> !list_has(dirs@, #[trigger] components(path@)[j]),
                        found ==> exists|j: int|
                            0 <= j < components(path@).len() && list_has(
                                dirs@,
                                #[trigger] components(path@)[j],
                            ),
                    decreases comps.len() - i,
                {
                    assert(texts(comps@)[i as int] == comps[i as int]@);
                    if list_contains(dirs, comps[i].as_slice()) {
                        assert(list_has(dirs@, components(path@)[i as int]));
                        found = true;
                    }
                    i += 1;
                }
                if found {
                    return false;
                }
            },
            None => {},
        }
        match path_extension(path) {
            Some(ext) => match &self.config.exclude_extensions {
                Some(exts) => {
                    let lower = from_chars(ext.as_slice()).as_str().to_lowercase();
                    let lower_chars = to_chars(lower.as_str());
                    if list_contains(exts, lower_chars.as_slice()) {
                        return false;
                    }
                },
                None => {},
            },
            None => {},
        }
        true
    }
}

} // verus!
