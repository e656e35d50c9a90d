//! Where the text of a named template comes from.
//!
//! [`PartialLoader`] is the capability: a name goes in, text or an error
//! comes out. [`DefaultLoader`] is the policy for templates kept as files
//! under one directory: it decides where a name's file lies and what a read
//! of that file amounts to. The read itself is a function that the caller
//! supplies; [`FileLoader`] holds the policy and that function together and
//! is the loader that a context is given.

use vstd::prelude::*;
use vstd::utf8::{decode_utf8, valid_utf8};
use vstd::std_specs::cmp::PartialEqSpecImpl;
use crate::error::{Error, IoFailure, IoKind};
use crate::path::{
    is_plain_extension, join, joined_path, path_with_extension, plain_extension, set_extension,
};
use crate::text::decode;

verus! {

/// Resolves the name of a template or of a partial to its text.
///
/// An implementation may read a file, look into a table or make the text up.
/// Calls are independent of one another: nothing says that two calls with one
/// name return the same text. Contracts that go through a loader therefore
/// speak of what a call of `load` may return and never of what it must.
pub trait PartialLoader: Clone {
    /// The text that goes by `name`, or why there is none to be had.
    fn load(&self, name: &str) -> Result<String, Error>;
}

/// What came of one attempt to read a resource.
#[derive(Clone, Debug, PartialEq, Eq)]
pub enum Access {
    /// The resource could not be opened.
    Unopened(IoFailure),
    /// The resource was opened and could not be read to its end.
    Unread(IoFailure),
    /// The resource was read; these are its bytes.
    Contents(Vec<u8>),
}

impl Access {
    /// The one outcome that loading forgives: there is nothing at the
    /// location. A resource that vanishes while it is read is not forgiven.
    pub open spec fn missing(&self) -> bool {
        self matches Access::Unopened(failure) && failure.kind == IoKind::NotFound
    }

    /// Whether the resource turned out not to exist.
    pub fn is_missing(&self) -> (missing: bool)
        ensures
            missing == self.missing(),
    {
        match self {
            Access::Unopened(failure) => failure.kind == IoKind::NotFound,
            _ => false,
        }
    }
}

/// A result that carries text, with the text taken by its view.
pub open spec fn text_view(r: Result<String, Error>) -> Result<Seq<char>, Error> {
    match r {
        Ok(text) => Ok(text@),
        Err(e) => Err(e),
    }
}

/// A default loader as mathematics: the text of its root and of its suffix.
pub struct Resolution {
    pub root: Seq<char>,
    pub suffix: Seq<char>,
}

/// The default way from a name to its text: the partial `name` is kept in
/// the file `{template_path}/{name}.{template_extension}`, and a file that
/// does not exist is a partial without text.
///
/// The extension is put in the place of whatever extension the name carries:
/// `v1.2` under the suffix `mustache` is looked for in `v1.mustache`. An
/// empty suffix is handed on as it is and takes the name's extension away.
#[derive(Debug)]
pub struct DefaultLoader {
    pub template_path: String,
    pub template_extension: String,
}

impl View for DefaultLoader {
    type V = Resolution;

    open spec fn view(&self) -> Resolution {
        Resolution { root: self.template_path@, suffix: self.template_extension@ }
    }
}

impl Clone for DefaultLoader {
    fn clone(&self) -> (copy: Self)
        ensures
            copy == *self,
    {
        DefaultLoader {
            template_path: self.template_path.clone(),
            template_extension: self.template_extension.clone(),
        }
    }
}

impl PartialEq for DefaultLoader {
    fn eq(&self, other: &Self) -> (same: bool) {
        self.template_path == other.template_path && self.template_extension
            == other.template_extension
    }
}

impl PartialEqSpecImpl for DefaultLoader {
    open spec fn obeys_eq_spec() -> bool {
        true
    }

    open spec fn eq_spec(&self, other: &Self) -> bool {
        self@ == other@
    }
}

impl DefaultLoader {
    /// A loader for the files under `template_path` that end in `template_extension`.
    pub fn new(template_path: String, template_extension: String) -> (loader: Self)
        ensures
            loader.template_path == template_path,
            loader.template_extension == template_extension,
    {
        Self { template_path, template_extension }
    }

    /// Where the text of `name` is kept: the root joined with the name, the
    /// extension then exchanged for the suffix.
    pub open spec fn location(&self, name: Seq<char>) -> Seq<char> {
        path_with_extension(joined_path(self@.root, name), self@.suffix)
    }

    /// Whether the suffix can be the extension of a file name.
    pub open spec fn usable(&self) -> bool {
        plain_extension(self@.suffix)
    }

    /// The location of `name`, or `InvalidStr` where the suffix holds a path
    /// separator and so cannot be an extension.
    pub fn locate(&self, name: &str) -> (r: Result<String, Error>)
        ensures
            match r {
                Ok(path) => self.usable() && path@ == self.location(name@),
                Err(e) => !self.usable() && e == Error::InvalidStr,
            },
    {
        if !is_plain_extension(self.template_extension.as_str()) {
            return Err(Error::InvalidStr);
        }
        let joined = join(self.template_path.as_str(), name);
        Ok(set_extension(joined, self.template_extension.as_str()))
    }

    /// What a read amounts to. A resource that does not exist is an empty
    /// text; any other failure is an error; bytes that were read are their
    /// decoding, or `InvalidText` where they have none.
    pub open spec fn text_of(access: Access) -> Result<Seq<char>, Error> {
        match access {
            Access::Unopened(failure) => if access.missing() {
                Ok(Seq::empty())
            } else {
                Err(Error::Io(failure))
            },
            Access::Unread(failure) => Err(Error::Io(failure)),
            Access::Contents(bytes) => if valid_utf8(bytes@) {
                Ok(decode_utf8(bytes@))
            } else {
                Err(Error::InvalidText)
            },
        }
    }

    /// Turns the outcome of a read into the text that loading returns.
    pub fn settle(access: Access) -> (r: Result<String, Error>)
        ensures
            text_view(r) == Self::text_of(access),
    {
        let missing = access.is_missing();
        match access {
            Access::Unopened(failure) => {
                if missing {
                    Ok(String::new())
                } else {
                    Err(Error::Io(failure))
                }
            },
            Access::Unread(failure) => Err(Error::Io(failure)),
            Access::Contents(bytes) => {
                match decode(bytes) {
                    Some(text) => Ok(text),
                    None => Err(Error::InvalidText),
                }
            },
        }
    }

    /// What `load` may return for `name` when `read` does the reading.
    pub open spec fn loads<R: FnOnce(String) -> Access>(
        &self,
        name: Seq<char>,
        read: R,
        r: Result<String, Error>,
    ) -> bool {
        if self.usable() {
            exists|path: String, access: Access|
                path@ == self.location(name) && call_ensures(read, (path,), access) && text_view(r)
                    == Self::text_of(access)
        } else {
            r == Err::<String, Error>(Error::InvalidStr)
        }
    }

    /// Loads the text of `name`: locates it, has `read` read that one
    /// location once, and settles what came back.
    pub fn load<R: FnOnce(String) -> Access>(&self, name: &str, read: R) -> (r: Result<
        String,
        Error,
    >)
        requires
            forall|path: String|
                self.usable() && path@ == self.location(name@) ==> call_requires(read, (path,)),
        ensures
            self.loads(name@, read, r),
    {
        match self.locate(name) {
            Ok(path) => {
                let access = read(path);
                Self::settle(access)
            },
            Err(e) => Err(e),
        }
    }
}

/// The default loader together with what does its reading: a function from
/// a location to the outcome of one read. With the file system behind that
/// function this is the loader of templates kept on disk; with a table
/// behind it, of templates kept in memory under the same names.
///
/// The reader goes wherever the loader is duplicated to, so it has to be
/// `Copy`: a function, or a closure over shared references.
pub struct FileLoader<R: Fn(String) -> Access + Copy> {
    policy: DefaultLoader,
    read: R,
}

impl<R: Fn(String) -> Access + Copy> FileLoader<R> {
    /// The reader can be asked for any location.
    #[verifier::type_invariant]
    spec fn reads_anywhere(self) -> bool {
        forall|path: String| call_requires(self.read, (path,))
    }

    /// The root and the suffix under which names are looked for.
    pub closed spec fn policy(&self) -> DefaultLoader {
        self.policy
    }

    /// What does the reading.
    pub closed spec fn reader(&self) -> R {
        self.read
    }

    /// A loader that looks where `policy` says and reads with `read`.
    pub fn new(policy: DefaultLoader, read: R) -> (loader: Self)
        requires
            forall|path: String| call_requires(read, (path,)),
        ensures
            loader.policy() == policy,
            loader.reader() == read,
    {
        FileLoader { policy, read }
    }

    /// The root and the suffix under which names are looked for.
    pub fn default_loader(&self) -> (policy: &DefaultLoader)
        ensures
            *policy == self.policy(),
    {
        &self.policy
    }
}

impl<R: Fn(String) -> Access + Copy> Clone for FileLoader<R> {
    fn clone(&self) -> (copy: Self)
        ensures
            copy == *self,
    {
        proof {
            use_type_invariant(self);
        }
        FileLoader { policy: self.policy.clone(), read: self.read }
    }
}

impl<R: Fn(String) -> Access + Copy> PartialLoader for FileLoader<R> {
    /// Loads the text of `name` as the policy says, reading with the reader.
    fn load(&self, name: &str) -> (r: Result<String, Error>)
        ensures
            self.policy().loads(name@, self.reader(), r),
    {
        proof {
            use_type_invariant(self);
        }
        self.policy.load(name, self.read)
    }
}

} // verus!
