//! The compilation context: one loader, and the two ways into a compiler.

use vstd::prelude::*;
use crate::error::Error;
use crate::loader::{Access, DefaultLoader, FileLoader, PartialLoader};
use crate::template::Template;

verus! {

/// The extension of template files where none is configured.
pub const DEFAULT_EXTENSION: &'static str = "mustache";

/// The shared configuration needed to compile and render a template: the
/// loader through which the names of partials become text.
///
/// A context is never changed after it is made. Whoever needs to keep one
/// (the compiler while it runs, each template it produces) gets a
/// duplicate of its own.
#[derive(Debug)]
pub struct Context<P: PartialLoader> {
    pub partial_loader: P,
}

impl<P: PartialLoader> Clone for Context<P> {
    fn clone(&self) -> (copy: Self)
        ensures
            self.duplicates(copy),
    {
        Context { partial_loader: self.partial_loader.clone() }
    }
}

impl<R: Fn(String) -> Access + Copy> Context<FileLoader<R>> {
    /// A context for the template files under `path` that end in
    /// `.mustache`, read with `read`.
    pub fn new(path: String, read: R) -> (context: Self)
        requires
            forall|location: String| call_requires(read, (location,)),
        ensures
            context.partial_loader.policy().template_path == path,
            context.partial_loader.policy().template_extension@ == DEFAULT_EXTENSION@,
            context.partial_loader.reader() == read,
    {
        Self::with_extension(path, DEFAULT_EXTENSION.to_string(), read)
    }

    /// A context for the template files under `path` that end in
    /// `extension`, read with `read`.
    pub fn with_extension(path: String, extension: String, read: R) -> (context: Self)
        requires
            forall|location: String| call_requires(read, (location,)),
        ensures
            context.partial_loader.policy().template_path == path,
            context.partial_loader.policy().template_extension == extension,
            context.partial_loader.reader() == read,
    {
        Context { partial_loader: FileLoader::new(DefaultLoader::new(path, extension), read) }
    }
}

impl<P: PartialLoader> Context<P> {
    /// A context that resolves names through `loader`.
    pub fn with_loader(loader: P) -> (context: Self)
        ensures
            context.partial_loader == loader,
    {
        Self { partial_loader: loader }
    }

    /// Whether `copy` is what duplicating this context may give.
    pub open spec fn duplicates(&self, copy: Context<P>) -> bool {
        cloned(self.partial_loader, copy.partial_loader)
    }

    /// What becomes of a compiler's answer: its tokens and partial names in a
    /// template that owns a duplicate of this context, or its error as it is.
    pub open spec fn assembles<T>(
        &self,
        parsed: Result<(T, Vec<String>), Error>,
        r: Result<Template<P, T>, Error>,
    ) -> bool {
        match parsed {
            Ok((tokens, partials)) => {
                &&& r matches Ok(template)
                &&& self.duplicates(template.context)
                &&& template.tokens == tokens
                &&& template.partials == partials
            },
            Err(e) => r == Err::<Template<P, T>, Error>(e),
        }
    }

    /// Wraps a compiler's answer.
    pub fn assemble<T>(&self, parsed: Result<(T, Vec<String>), Error>) -> (r: Result<
        Template<P, T>,
        Error,
    >)
        ensures
            self.assembles(parsed, r),
    {
        match parsed {
            Ok((tokens, partials)) => Ok(Template::new(self.clone(), tokens, partials)),
            Err(e) => Err(e),
        }
    }

    /// What `compile` may return: the compiler was given a duplicate of this
    /// context and the source, and its answer was wrapped.
    pub open spec fn compiles<T, F>(
        &self,
        source: String,
        compiler: F,
        r: Result<Template<P, T>, Error>,
    ) -> bool where F: FnOnce(Context<P>, String) -> Result<(T, Vec<String>), Error> {
        exists|handed: Context<P>, parsed: Result<(T, Vec<String>), Error>|
            self.duplicates(handed) && call_ensures(compiler, (handed, source), parsed)
                && self.assembles(parsed, r)
    }

    /// Compiles a template from its source.
    pub fn compile<T, F>(&self, source: String, compiler: F) -> (r: Result<Template<P, T>, Error>)
        where F: FnOnce(Context<P>, String) -> Result<(T, Vec<String>), Error>
        requires
            forall|handed: Context<P>|
                self.duplicates(handed) ==> call_requires(compiler, (handed, source)),
        ensures
            self.compiles(source, compiler, r),
    {
        let parsed = compiler(self.clone(), source);
        self.assemble(parsed)
    }

    /// What becomes of a loader's answer: its text is compiled, its error is
    /// returned as it is.
    pub open spec fn compiles_loaded<T, F>(
        &self,
        loaded: Result<String, Error>,
        compiler: F,
        r: Result<Template<P, T>, Error>,
    ) -> bool where F: FnOnce(Context<P>, String) -> Result<(T, Vec<String>), Error> {
        match loaded {
            Ok(text) => self.compiles(text, compiler, r),
            Err(e) => r == Err::<Template<P, T>, Error>(e),
        }
    }

    /// Compiles what a loader returned.
    pub fn compile_loaded<T, F>(&self, loaded: Result<String, Error>, compiler: F) -> (r: Result<
        Template<P, T>,
        Error,
    >) where F: FnOnce(Context<P>, String) -> Result<(T, Vec<String>), Error>
        requires
            forall|handed: Context<P>, text: String|
                self.duplicates(handed) && loaded == Ok::<String, Error>(text) ==> call_requires(
                    compiler,
                    (handed, text),
                ),
        ensures
            self.compiles_loaded(loaded, compiler, r),
    {
        match loaded {
            Ok(text) => self.compile(text, compiler),
            Err(e) => Err(e),
        }
    }

    /// What `compile_path` may return: the loader was asked for `name` once,
    /// and its answer was compiled.
    pub open spec fn compiles_path<T, F>(
        &self,
        name: &str,
        compiler: F,
        r: Result<Template<P, T>, Error>,
    ) -> bool where F: FnOnce(Context<P>, String) -> Result<(T, Vec<String>), Error> {
        exists|loaded: Result<String, Error>|
            call_ensures(P::load, (&self.partial_loader, name), loaded) && self.compiles_loaded(
                loaded,
                compiler,
                r,
            )
    }

    /// Compiles the template that the loader has under `name`.
    pub fn compile_path<T, F>(&self, name: &str, compiler: F) -> (r: Result<Template<P, T>, Error>)
        where F: FnOnce(Context<P>, String) -> Result<(T, Vec<String>), Error>
        requires
            forall|handed: Context<P>, text: String|
                self.duplicates(handed) && call_ensures(
                    P::load,
                    (&self.partial_loader, name),
                    Ok::<String, Error>(text),
                ) ==> call_requires(compiler, (handed, text)),
        ensures
            self.compiles_path(name, compiler, r),
    {
        let loaded = self.partial_loader.load(name);
        self.compile_loaded(loaded, compiler)
    }
}

} // verus!
