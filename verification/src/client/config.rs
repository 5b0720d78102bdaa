//! What a submission consists of: the options sent in the handshake and the
//! two ordered lists of files.
use vstd::prelude::*;
use vstd::string::*;
use crate::client::error::{ErrorKind, MossError};
use crate::client::language::MossLanguage;
use crate::client::resolve::{
    commit_lookup, lookup, lookup_fits, path_exists, paths_view, resolution_error,
    resolved_paths, Lookup,
};

verus! {

/// The options and files of one submission, and the address of the server
/// that is to receive it.
#[derive(Debug)]
pub struct MossConfig<S> {
    server_address: S,
    user_id: String,
    comment: String,
    language: MossLanguage,
    use_directory_mode: bool,
    use_experimental_mode: bool,
    max_matches_displayed: usize,
    max_ignore_threshold: usize,
    transform: Option<String>,
    _base_files: Vec<String>,
    _submission_files: Vec<String>,
}

/// The model of a [`MossConfig`]: everything the protocol reads from it.
pub struct ConfigView {
    pub user_id: Seq<char>,
    pub comment: Seq<char>,
    pub language: MossLanguage,
    pub use_directory_mode: bool,
    pub use_experimental_mode: bool,
    pub max_matches_displayed: nat,
    pub max_ignore_threshold: nat,
    /// The pattern that picks the part of a file name to show, if any.
    pub transform: Option<Seq<char>>,
    /// The base files, in the order they were added.
    pub base_files: Seq<Seq<char>>,
    /// The submission files, in the order they were added.
    pub submission_files: Seq<Seq<char>>,
}

/// The configuration to start from: no comment, the default language, both
/// modes off, at most 250 matches shown, passages ignored after 10
/// repetitions, file names shown as they are, and no files.
pub open spec fn fresh_config(user_id: Seq<char>) -> ConfigView {
    ConfigView {
        user_id,
        comment: Seq::empty(),
        language: MossLanguage::C,
        use_directory_mode: false,
        use_experimental_mode: false,
        max_matches_displayed: 250,
        max_ignore_threshold: 10,
        transform: None,
        base_files: Seq::empty(),
        submission_files: Seq::empty(),
    }
}

/// The message of the error for a path that is not there.
pub open spec fn missing_path_text(path: Seq<char>) -> Seq<char> {
    "Path does not exist: "@ + path
}

impl<S> MossConfig<S> {
    /// What the protocol reads from the configuration.
    pub closed spec fn view(&self) -> ConfigView {
        ConfigView {
            user_id: self.user_id@,
            comment: self.comment@,
            language: self.language,
            use_directory_mode: self.use_directory_mode,
            use_experimental_mode: self.use_experimental_mode,
            max_matches_displayed: self.max_matches_displayed as nat,
            max_ignore_threshold: self.max_ignore_threshold as nat,
            transform: match self.transform {
                Some(pattern) => Some(pattern@),
                None => None,
            },
            base_files: paths_view(self._base_files@),
            submission_files: paths_view(self._submission_files@),
        }
    }

    /// A configuration holds no more files than an index can count.
    pub proof fn lemma_counts_fit(&self)
        ensures
            self@.base_files.len() <= usize::MAX,
            self@.submission_files.len() <= usize::MAX,
    {
        assert(self._base_files@.len() == self._base_files.len());
        assert(self._submission_files@.len() == self._submission_files.len());
    }

    /// The address the configuration was made with.
    pub closed spec fn address(&self) -> S {
        self.server_address
    }

    /// A fresh configuration for `user_id`.
    pub fn new(user_id: &str, server_address: S) -> (r: Self)
        ensures
            r@ == fresh_config(user_id@),
            r.address() == server_address,
    {
        let r = MossConfig {
            server_address,
            user_id: user_id.to_owned(),
            comment: String::new(),
            language: MossLanguage::C,
            use_directory_mode: false,
            use_experimental_mode: false,
            max_matches_displayed: 250,
            max_ignore_threshold: 10,
            transform: None,
            _base_files: Vec::new(),
            _submission_files: Vec::new(),
        };
        assert(r@.base_files =~= Seq::empty());
        assert(r@.submission_files =~= Seq::empty());
        r
    }

    /// The address of the server.
    pub fn server_address(&self) -> (r: &S)
        ensures
            *r == self.address(),
    {
        &self.server_address
    }

    /// The identifier sent in the handshake.
    pub fn user_id(&self) -> (r: &String)
        ensures
            r@ == self@.user_id,
    {
        &self.user_id
    }

    /// The text attached to the query.
    pub fn comment(&self) -> (r: &String)
        ensures
            r@ == self@.comment,
    {
        &self.comment
    }

    /// The language of the submitted files.
    pub fn language(&self) -> (r: &MossLanguage)
        ensures
            *r == self@.language,
    {
        &self.language
    }

    /// Whether submissions are organised by directory.
    pub fn use_directory_mode(&self) -> (r: &bool)
        ensures
            *r == self@.use_directory_mode,
    {
        &self.use_directory_mode
    }

    /// Whether the experimental server is asked for.
    pub fn use_experimental_mode(&self) -> (r: &bool)
        ensures
            *r == self@.use_experimental_mode,
    {
        &self.use_experimental_mode
    }

    /// How many matching files the result shows at most.
    pub fn max_matches_displayed(&self) -> (r: &usize)
        ensures
            *r == self@.max_matches_displayed,
    {
        &self.max_matches_displayed
    }

    /// How often a passage may occur before it is ignored.
    pub fn max_ignore_threshold(&self) -> (r: &usize)
        ensures
            *r == self@.max_ignore_threshold,
    {
        &self.max_ignore_threshold
    }

    /// The pattern that picks the part of a file name to show, if any.
    pub fn transform(&self) -> (r: &Option<String>)
        ensures
            match *r {
                Some(pattern) => self@.transform == Some(pattern@),
                None => self@.transform is None,
            },
    {
        &self.transform
    }

    /// Sets the identifier sent in the handshake, and changes nothing else.
    pub fn set_user_id(&mut self, val: String) -> (r: &mut Self)
        ensures
            *final(self) == *final(r),
            r@ == (ConfigView { user_id: val@, ..old(self)@ }),
            r.address() == old(self).address(),
    {
        self.user_id = val;
        self
    }

    /// Sets the text attached to the query, and changes nothing else.
    pub fn set_comment(&mut self, val: String) -> (r: &mut Self)
        ensures
            *final(self) == *final(r),
            r@ == (ConfigView { comment: val@, ..old(self)@ }),
            r.address() == old(self).address(),
    {
        self.comment = val;
        self
    }

    /// Sets the language of the submitted files, and changes nothing else.
    pub fn set_language(&mut self, val: MossLanguage) -> (r: &mut Self)
        ensures
            *final(self) == *final(r),
            r@ == (ConfigView { language: val, ..old(self)@ }),
            r.address() == old(self).address(),
    {
        self.language = val;
        self
    }

    /// Sets whether submissions are organised by directory, and changes
    /// nothing else.
    pub fn set_use_directory_mode(&mut self, val: bool) -> (r: &mut Self)
        ensures
            *final(self) == *final(r),
            r@ == (ConfigView { use_directory_mode: val, ..old(self)@ }),
            r.address() == old(self).address(),
    {
        self.use_directory_mode = val;
        self
    }

    /// Sets whether the experimental server is asked for, and changes
    /// nothing else.
    pub fn set_use_experimental_mode(&mut self, val: bool) -> (r: &mut Self)
        ensures
            *final(self) == *final(r),
            r@ == (ConfigView { use_experimental_mode: val, ..old(self)@ }),
            r.address() == old(self).address(),
    {
        self.use_experimental_mode = val;
        self
    }

    /// Sets how many matching files the result shows at most, and changes
    /// nothing else.
    pub fn set_max_matches_displayed(&mut self, val: usize) -> (r: &mut Self)
        ensures
            *final(self) == *final(r),
            r@ == (ConfigView { max_matches_displayed: val as nat, ..old(self)@ }),
            r.address() == old(self).address(),
    {
        self.max_matches_displayed = val;
        self
    }

    /// Sets how often a passage may occur before it is ignored, and changes
    /// nothing else.
    pub fn set_max_ignore_threshold(&mut self, val: usize) -> (r: &mut Self)
        ensures
            *final(self) == *final(r),
            r@ == (ConfigView { max_ignore_threshold: val as nat, ..old(self)@ }),
            r.address() == old(self).address(),
    {
        self.max_ignore_threshold = val;
        self
    }

    /// Sets the pattern that picks the part of a file name to show, and
    /// changes nothing else.
    pub fn set_transform(&mut self, val: Option<String>) -> (r: &mut Self)
        ensures
            *final(self) == *final(r),
            r@ == (ConfigView {
                transform: match val {
                    Some(pattern) => Some(pattern@),
                    None => None,
                },
                ..old(self)@
            }),
            r.address() == old(self).address(),
    {
        self.transform = val;
        self
    }

    /// Commits what a lookup of `path` gave to the base files.
    pub fn add_base_lookup(&mut self, path: &str, found: Lookup) -> (r: Result<(), MossError>)
        ensures
            final(self)@ == (ConfigView {
                base_files: old(self)@.base_files + resolved_paths(path@, found),
                ..old(self)@
            }),
            final(self).address() == old(self).address(),
            match resolution_error(found) {
                None => r is Ok,
                Some(e) => r is Err && r->Err_0@ == e,
            },
    {
        commit_lookup(path, found, &mut self._base_files)
    }

    /// Commits what a lookup of `path` gave to the submission files.
    pub fn add_lookup(&mut self, path: &str, found: Lookup) -> (r: Result<(), MossError>)
        ensures
            final(self)@ == (ConfigView {
                submission_files: old(self)@.submission_files + resolved_paths(path@, found),
                ..old(self)@
            }),
            final(self).address() == old(self).address(),
            match resolution_error(found) {
                None => r is Ok,
                Some(e) => r is Err && r->Err_0@ == e,
            },
    {
        commit_lookup(path, found, &mut self._submission_files)
    }

    /// Resolves a path or pattern and appends what it denotes to the
    /// base files.  Whatever the lookup gave, the base files grow by
    /// exactly the paths that this outcome denotes, nothing else changes, and
    /// the call fails exactly when this outcome is an error.
    pub fn add_base_file(&mut self, path: &str) -> (r: Result<&mut Self, MossError>)
        ensures
            exists|found: Lookup|
                {
                    let grown = ConfigView {
                        base_files: old(self)@.base_files + #[trigger] resolved_paths(path@, found),
                        ..old(self)@
                    };
                    match r {
                        Ok(cfg) => {
                            &&& lookup_fits(path@, found)
                            &&& resolution_error(found) is None
                            &&& *final(self) == *final(cfg)
                            &&& cfg@ == grown
                            &&& cfg.address() == old(self).address()
                        },
                        Err(e) => {
                            &&& lookup_fits(path@, found)
                            &&& resolution_error(found) == Some(e@)
                            &&& final(self)@ == grown
                            &&& final(self).address() == old(self).address()
                        },
                    }
                },
    {
        let found = lookup(path);
        let ghost witness = found;
        match self.add_base_lookup(path, found) {
            Ok(_) => {
                assert(self@.base_files == old(self)@.base_files + resolved_paths(path@, witness));
                Ok(self)
            },
            Err(e) => {
                assert(self@.base_files == old(self)@.base_files + resolved_paths(path@, witness));
                Err(e)
            },
        }
    }

    /// Resolves a path or pattern and appends what it denotes to the
    /// submission files.  Whatever the lookup gave, the submission files grow
    /// by exactly the paths that this outcome denotes, nothing else changes,
    /// and the call fails exactly when this outcome is an error.
    pub fn add_file(&mut self, path: &str) -> (r: Result<&mut Self, MossError>)
        ensures
            exists|found: Lookup|
                {
                    let grown = ConfigView {
                        submission_files: old(self)@.submission_files
                            + #[trigger] resolved_paths(path@, found),
                        ..old(self)@
                    };
                    match r {
                        Ok(cfg) => {
                            &&& lookup_fits(path@, found)
                            &&& resolution_error(found) is None
                            &&& *final(self) == *final(cfg)
                            &&& cfg@ == grown
                            &&& cfg.address() == old(self).address()
                        },
                        Err(e) => {
                            &&& lookup_fits(path@, found)
                            &&& resolution_error(found) == Some(e@)
                            &&& final(self)@ == grown
                            &&& final(self).address() == old(self).address()
                        },
                    }
                },
    {
        let found = lookup(path);
        let ghost witness = found;
        match self.add_lookup(path, found) {
            Ok(_) => {
                assert(self@.submission_files == old(self)@.submission_files
                    + resolved_paths(path@, witness));
                Ok(self)
            },
            Err(e) => {
                assert(self@.submission_files == old(self)@.submission_files
                    + resolved_paths(path@, witness));
                Err(e)
            },
        }
    }

    /// Appends a path to the submission files, given whether it was found on
    /// disk at the last look: if it was, it becomes the last of them and
    /// nothing else changes; if it was not, nothing changes and the error
    /// names it.
    pub fn add_checked_path(&mut self, path: String, present: bool) -> (r: Result<
        &mut Self,
        MossError,
    >)
        ensures
            match r {
                Ok(cfg) => {
                    &&& present
                    &&& *final(self) == *final(cfg)
                    &&& cfg@ == (ConfigView {
                        submission_files: old(self)@.submission_files.push(path@),
                        ..old(self)@
                    })
                    &&& cfg.address() == old(self).address()
                },
                Err(e) => {
                    &&& !present
                    &&& *final(self) == *old(self)
                    &&& e@ == (ErrorKind::PathResolution, missing_path_text(path@))
                },
            },
    {
        if present {
            self._submission_files.push(path);
            assert(self@.submission_files =~= old(self)@.submission_files.push(path@));
            Ok(self)
        } else {
            Err(missing_path(path.as_str()))
        }
    }

    /// Appends a path that is known to exist to the submission files, after
    /// one last look at the disk: if it is there it becomes the last of
    /// them, else nothing changes and the error names it.
    pub fn add_path(&mut self, path: String) -> (r: Result<&mut Self, MossError>)
        ensures
            match r {
                Ok(cfg) => {
                    &&& *final(self) == *final(cfg)
                    &&& cfg@ == (ConfigView {
                        submission_files: old(self)@.submission_files.push(path@),
                        ..old(self)@
                    })
                    &&& cfg.address() == old(self).address()
                },
                Err(e) => {
                    &&& *final(self) == *old(self)
                    &&& e@ == (ErrorKind::PathResolution, missing_path_text(path@))
                },
            },
    {
        let present = path_exists(path.as_str());
        self.add_checked_path(path, present)
    }

    /// Appends a path to the base files, given whether it was found on
    /// disk at the last look: if it was, it becomes the last of them and
    /// nothing else changes; if it was not, nothing changes and the error
    /// names it.
    pub fn add_checked_base_path(&mut self, path: String, present: bool) -> (r: Result<
        &mut Self,
        MossError,
    >)
        ensures
            match r {
                Ok(cfg) => {
                    &&& present
                    &&& *final(self) == *final(cfg)
                    &&& cfg@ == (ConfigView {
                        base_files: old(self)@.base_files.push(path@),
                        ..old(self)@
                    })
                    &&& cfg.address() == old(self).address()
                },
                Err(e) => {
                    &&& !present
                    &&& *final(self) == *old(self)
                    &&& e@ == (ErrorKind::PathResolution, missing_path_text(path@))
                },
            },
    {
        if present {
            self._base_files.push(path);
            assert(self@.base_files =~= old(self)@.base_files.push(path@));
            Ok(self)
        } else {
            Err(missing_path(path.as_str()))
        }
    }

    /// Appends a path that is known to exist to the base files, after
    /// one last look at the disk: if it is there it becomes the last of
    /// them, else nothing changes and the error names it.
    pub fn add_base_path(&mut self, path: String) -> (r: Result<&mut Self, MossError>)
        ensures
            match r {
                Ok(cfg) => {
                    &&& *final(self) == *final(cfg)
                    &&& cfg@ == (ConfigView {
                        base_files: old(self)@.base_files.push(path@),
                        ..old(self)@
                    })
                    &&& cfg.address() == old(self).address()
                },
                Err(e) => {
                    &&& *final(self) == *old(self)
                    &&& e@ == (ErrorKind::PathResolution, missing_path_text(path@))
                },
            },
    {
        let present = path_exists(path.as_str());
        self.add_checked_base_path(path, present)
    }

    /// The base files, in the order they were added.
    pub fn base_files(&self) -> (r: &Vec<String>)
        ensures
            paths_view(r@) == self@.base_files,
    {
        &self._base_files
    }

    /// The submission files, in the order they were added.
    pub fn submission_files(&self) -> (r: &Vec<String>)
        ensures
            paths_view(r@) == self@.submission_files,
    {
        &self._submission_files
    }
}

/// The error for a path that is not there.
fn missing_path(path: &str) -> (e: MossError)
    ensures
        e@ == (ErrorKind::PathResolution, missing_path_text(path@)),
{
    let mut message = "Path does not exist: ".to_owned();
    message.append(path);
    MossError { kind: ErrorKind::PathResolution, message }
}

} // verus!
