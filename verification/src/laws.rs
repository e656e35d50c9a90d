//! What holds of loading and compiling, whatever the reader, the loader and
//! the compiler are.

use vstd::prelude::*;
use vstd::utf8::{
    decode_utf8, encode_utf8, encode_utf8_decode_utf8, encode_utf8_valid_utf8, valid_utf8,
};
use crate::context::Context;
use crate::error::Error;
use crate::loader::{Access, DefaultLoader, FileLoader, PartialLoader};
use crate::template::Template;

verus! {

/// Every read of the location of `name` finds the same bytes there.
pub open spec fn always_reads<R: FnOnce(String) -> Access>(
    loader: DefaultLoader,
    read: R,
    name: Seq<char>,
    bytes: Seq<u8>,
) -> bool {
    forall|path: String, access: Access|
        path@ == loader.location(name) && call_ensures(read, (path,), access) ==> (
        access matches Access::Contents(found) && found@ == bytes)
}

/// Every attempt to open the location of `name` finds nothing there.
pub open spec fn never_finds<R: FnOnce(String) -> Access>(
    loader: DefaultLoader,
    read: R,
    name: Seq<char>,
) -> bool {
    forall|path: String, access: Access|
        path@ == loader.location(name) && call_ensures(read, (path,), access) ==> access.missing()
}

/// A resource that exists and holds text is loaded as exactly that text.
pub proof fn existing_text_is_loaded<R: FnOnce(String) -> Access>(
    loader: DefaultLoader,
    name: Seq<char>,
    read: R,
    bytes: Seq<u8>,
    r: Result<String, Error>,
)
    requires
        loader.usable(),
        valid_utf8(bytes),
        always_reads(loader, read, name, bytes),
        loader.loads(name, read, r),
    ensures
        r matches Ok(text) && text@ == decode_utf8(bytes),
{
}

/// Reading back what was written: the bytes that encode a text settle as
/// that text.
pub proof fn encoded_text_is_decoded(text: Seq<char>, bytes: Vec<u8>)
    requires
        bytes@ == encode_utf8(text),
    ensures
        DefaultLoader::text_of(Access::Contents(bytes)) == Ok::<Seq<char>, Error>(text),
{
    encode_utf8_valid_utf8(text);
    encode_utf8_decode_utf8(text);
}

/// Loading forgives one thing only. A read yields text exactly where the
/// resource does not exist or its bytes are UTF-8; bytes that are not UTF-8
/// yield `InvalidText` and nothing else does; every other failure comes back
/// as it was reported.
pub proof fn only_absence_is_forgiven(access: Access)
    ensures
        DefaultLoader::text_of(access) is Ok <==> access.missing() || (
        access matches Access::Contents(bytes) && valid_utf8(bytes@)),
        DefaultLoader::text_of(access) == Err::<Seq<char>, Error>(Error::InvalidText) <==> (
        access matches Access::Contents(bytes) && !valid_utf8(bytes@)),
        access matches Access::Unopened(failure) ==> access.missing() || DefaultLoader::text_of(
            access,
        ) == Err::<Seq<char>, Error>(Error::Io(failure)),
        access matches Access::Unread(failure) ==> DefaultLoader::text_of(access) == Err::<
            Seq<char>,
            Error,
        >(Error::Io(failure)),
{
}

/// A resource that does not exist is loaded as the empty text, not as an
/// error.
pub proof fn missing_resource_is_empty_text<R: FnOnce(String) -> Access>(
    loader: DefaultLoader,
    name: Seq<char>,
    read: R,
    r: Result<String, Error>,
)
    requires
        loader.usable(),
        never_finds(loader, read, name),
        loader.loads(name, read, r),
    ensures
        r matches Ok(text) && text@ == Seq::<char>::empty(),
{
}

/// With a loader that answers every name with one and the same text,
/// compiling any path is compiling that text.
pub proof fn fixed_loader_compiles_its_text<P: PartialLoader, T, F>(
    context: Context<P>,
    name: &str,
    text: Seq<char>,
    compiler: F,
    r: Result<Template<P, T>, Error>,
) where F: FnOnce(Context<P>, String) -> Result<(T, Vec<String>), Error>
    requires
        forall|any: &str, loaded: Result<String, Error>|
            call_ensures(P::load, (&context.partial_loader, any), loaded) ==> (
            loaded matches Ok(answer) && answer@ == text),
        context.compiles_path(name, compiler, r),
    ensures
        exists|source: String| source@ == text && context.compiles(source, compiler, r),
{
    let loaded = choose|loaded: Result<String, Error>|
        call_ensures(P::load, (&context.partial_loader, name), loaded) && context.compiles_loaded(
            loaded,
            compiler,
            r,
        );
    assert(loaded matches Ok(answer) && answer@ == text);
    assert(context.compiles(loaded->Ok_0, compiler, r));
}

/// A context does not recover from its loader's failure: the failure is
/// what compiling the path returns.
pub proof fn loader_failure_is_passed_on<P: PartialLoader, T, F>(
    context: Context<P>,
    name: &str,
    failure: Error,
    compiler: F,
    r: Result<Template<P, T>, Error>,
) where F: FnOnce(Context<P>, String) -> Result<(T, Vec<String>), Error>
    requires
        forall|loaded: Result<String, Error>|
            call_ensures(P::load, (&context.partial_loader, name), loaded) ==> loaded == Err::<
                String,
                Error,
            >(failure),
        context.compiles_path(name, compiler, r),
    ensures
        r == Err::<Template<P, T>, Error>(failure),
{
}

/// A context does not recover from its compiler's failure: the failure is
/// what compiling returns.
pub proof fn compiler_failure_is_passed_on<P: PartialLoader, T, F>(
    context: Context<P>,
    source: String,
    failure: Error,
    compiler: F,
    r: Result<Template<P, T>, Error>,
) where F: FnOnce(Context<P>, String) -> Result<(T, Vec<String>), Error>
    requires
        forall|handed: Context<P>, parsed: Result<(T, Vec<String>), Error>|
            call_ensures(compiler, (handed, source), parsed) ==> parsed == Err::<
                (T, Vec<String>),
                Error,
            >(failure),
        context.compiles(source, compiler, r),
    ensures
        r == Err::<Template<P, T>, Error>(failure),
{
}

/// Compiling the path of a file that exists and holds text is compiling
/// that text.
pub proof fn existing_file_compiles_as_its_text<R, T, F>(
    context: Context<FileLoader<R>>,
    name: &str,
    bytes: Seq<u8>,
    compiler: F,
    r: Result<Template<FileLoader<R>, T>, Error>,
) where
    R: Fn(String) -> Access + Copy,
    F: FnOnce(Context<FileLoader<R>>, String) -> Result<(T, Vec<String>), Error>,

    requires
        context.partial_loader.policy().usable(),
        valid_utf8(bytes),
        always_reads(context.partial_loader.policy(), context.partial_loader.reader(), name@, bytes),
        context.compiles_path(name, compiler, r),
    ensures
        exists|source: String|
            source@ == decode_utf8(bytes) && context.compiles(source, compiler, r),
{
    let loader = context.partial_loader;
    let loaded = choose|loaded: Result<String, Error>|
        call_ensures(FileLoader::<R>::load, (&loader, name), loaded) && context.compiles_loaded(
            loaded,
            compiler,
            r,
        );
    existing_text_is_loaded(loader.policy(), name@, loader.reader(), bytes, loaded);
    assert(context.compiles(loaded->Ok_0, compiler, r));
}

/// Compiling the path of a file that does not exist succeeds wherever the
/// compiler accepts the empty text: it is compiling the empty text.
pub proof fn missing_file_compiles_as_the_empty_text<R, T, F>(
    context: Context<FileLoader<R>>,
    name: &str,
    compiler: F,
    r: Result<Template<FileLoader<R>, T>, Error>,
) where
    R: Fn(String) -> Access + Copy,
    F: FnOnce(Context<FileLoader<R>>, String) -> Result<(T, Vec<String>), Error>,

    requires
        context.partial_loader.policy().usable(),
        never_finds(context.partial_loader.policy(), context.partial_loader.reader(), name@),
        context.compiles_path(name, compiler, r),
    ensures
        exists|source: String|
            source@ == Seq::<char>::empty() && context.compiles(source, compiler, r),
{
    let loader = context.partial_loader;
    let loaded = choose|loaded: Result<String, Error>|
        call_ensures(FileLoader::<R>::load, (&loader, name), loaded) && context.compiles_loaded(
            loaded,
            compiler,
            r,
        );
    missing_resource_is_empty_text(loader.policy(), name@, loader.reader(), loaded);
    assert(context.compiles(loaded->Ok_0, compiler, r));
}

/// Where duplicating a loader gives an equal loader, a duplicate of a
/// context compiles every path as the context does, as long as the loader's
/// answers come out the same.
pub proof fn duplicate_compiles_alike<P: PartialLoader, T, F>(
    context: Context<P>,
    copy: Context<P>,
    name: &str,
    compiler: F,
    r: Result<Template<P, T>, Error>,
) where F: FnOnce(Context<P>, String) -> Result<(T, Vec<String>), Error>
    requires
        forall|a: P, b: P| cloned(a, b) ==> a == b,
        context.duplicates(copy),
    ensures
        copy.compiles_path(name, compiler, r) <==> context.compiles_path(name, compiler, r),
{
    assert(copy == context);
}

/// A duplicate of a file loader is equal to it: same root, same suffix,
/// same reader.
pub proof fn file_loader_duplicate_is_equal<R: Fn(String) -> Access + Copy>(
    loader: FileLoader<R>,
    copy: FileLoader<R>,
)
    requires
        cloned(loader, copy),
    ensures
        copy == loader,
{
}

/// A duplicate of a context over a file loader compiles every path as the
/// context does, as long as the reads come out the same.
pub proof fn file_context_duplicate_compiles_alike<R, T, F>(
    context: Context<FileLoader<R>>,
    copy: Context<FileLoader<R>>,
    name: &str,
    compiler: F,
    r: Result<Template<FileLoader<R>, T>, Error>,
) where
    R: Fn(String) -> Access + Copy,
    F: FnOnce(Context<FileLoader<R>>, String) -> Result<(T, Vec<String>), Error>,

    requires
        context.duplicates(copy),
    ensures
        copy.compiles_path(name, compiler, r) <==> context.compiles_path(name, compiler, r),
{
    file_loader_duplicate_is_equal(context.partial_loader, copy.partial_loader);
    assert(copy == context);
}

} // verus!
