//! Operations named by a WIT interface.

use crate::text::{lemma_split_first, lemma_split_last, rsplit_once, split_first, split_last, split_once};
use vstd::prelude::*;

verus! {

/// The namespace of a WIT package.
pub type WitNamespace = String;

/// The name of a WIT package.
pub type WitPackage = String;

/// The name of a WIT interface.
pub type WitInterface = String;

/// The name of a function of a WIT interface.
pub type WitFunction = String;

/// Why an operation is not of the form `<namespace>:<package>/<interface>.<function>`.
#[derive(Debug, Clone, Copy, PartialEq, Eq, Structural)]
pub enum OperationError {
    /// There is no `/`.
    MissingInterface,
    /// There is no `.` after the last `/`.
    MissingFunction,
    /// There is no `:` before the last `/`.
    MissingPackage,
}

/// The words that an [`OperationError`] is reported in.
pub open spec fn operation_error_text(error: OperationError) -> Seq<char> {
    match error {
        OperationError::MissingInterface => "failed to parse operation"@,
        OperationError::MissingFunction => "interface and function should be specified"@,
        OperationError::MissingPackage => "failed to parse operation for WIT ns/pkg"@,
    }
}

impl OperationError {
    /// The error in words.
    pub fn message(self) -> (text: &'static str)
        ensures
            text@ == operation_error_text(self),
    {
        match self {
            OperationError::MissingInterface => "failed to parse operation",
            OperationError::MissingFunction => "interface and function should be specified",
            OperationError::MissingPackage => "failed to parse operation for WIT ns/pkg",
        }
    }
}

/// The parts that an operation's name is made of.
#[verifier::ext_equal]
pub struct WitMeta {
    pub namespace: Seq<char>,
    pub package: Seq<char>,
    pub interface: Seq<char>,
    /// Not empty where it is there.
    pub function: Option<Seq<char>>,
}

impl WitMeta {
    /// The function's name, or nothing where there is no function.
    pub open spec fn function_text(self) -> Seq<char> {
        match self.function {
            Some(f) => f,
            None => Seq::empty(),
        }
    }

    /// The parts are separated as they are in an operation's name: the last `/` stands before
    /// the interface, the first `.` after it, and the last `:` before the package.
    pub open spec fn separable(self) -> bool {
        &&& !self.package.contains(':')
        &&& !self.interface.contains('.')
        &&& !self.interface.contains('/')
        &&& !self.function_text().contains('/')
        &&& self.function is Some ==> self.function_text().len() > 0
    }

    /// The operation's name.
    pub open spec fn operation(self) -> Seq<char> {
        self.namespace + seq![':'] + self.package + seq!['/'] + self.interface + seq!['.']
            + self.function_text()
    }
}

/// The parts of an operation's name, or why it has none: the name is taken apart at its last
/// `/`, what follows that at its first `.`, and what precedes it at its last `:`.
pub open spec fn operation_parts(operation: Seq<char>) -> Result<WitMeta, OperationError> {
    match split_last(operation, '/') {
        None => Err(OperationError::MissingInterface),
        Some((qualifier, member)) => match split_first(member, '.') {
            None => Err(OperationError::MissingFunction),
            Some((interface, function)) => match split_last(qualifier, ':') {
                None => Err(OperationError::MissingPackage),
                Some((namespace, package)) => Ok(
                    WitMeta {
                        namespace,
                        package,
                        interface,
                        function: if function.len() == 0 {
                            None
                        } else {
                            Some(function)
                        },
                    },
                ),
            },
        },
    }
}

/// What [`parse_wit_meta_from_operation`] returned, as parts of a name.
pub open spec fn parsed_parts(
    parsed: Result<(WitNamespace, WitPackage, WitInterface, Option<WitFunction>), OperationError>,
) -> Result<WitMeta, OperationError> {
    match parsed {
        Ok((namespace, package, interface, function)) => Ok(
            WitMeta {
                namespace: namespace@,
                package: package@,
                interface: interface@,
                function: function.deep_view(),
            },
        ),
        Err(error) => Err(error),
    }
}

/// Parses a sufficiently specified WIT operation into constituent parts.
///
/// Returns `Err` if the operation is not of the form
/// `<namespace>:<package>/<interface>.<function>`: `wasmcloud:bus/guest-config` is not
/// sufficiently specified. An empty function, as in `wasmcloud:bus/guest-config.`, is no function.
pub fn parse_wit_meta_from_operation(operation: &str) -> (parsed: Result<
    (WitNamespace, WitPackage, WitInterface, Option<WitFunction>),
    OperationError,
>)
    ensures
        parsed_parts(parsed) == operation_parts(operation@),
        parsed matches Ok((namespace, package, interface, function)) ==> {
            let name = match function {
                Some(f) => f@,
                None => Seq::empty(),
            };
            &&& operation@ == namespace@ + seq![':'] + package@ + seq!['/'] + interface@
                + seq!['.'] + name
            &&& !package@.contains(':')
            &&& !interface@.contains('.')
            &&& !interface@.contains('/')
            &&& !name.contains('/')
            &&& function is Some ==> name.len() > 0
        },
        parsed is Err <==> !exists|meta: WitMeta|
            #![trigger meta.operation()]
            meta.separable() && operation@ == meta.operation(),
{
    proof {
        lemma_parsable(operation@);
    }
    let (qualifier, member) = match rsplit_once(operation, '/') {
        Some(parts) => parts,
        None => {
            return Err(OperationError::MissingInterface);
        },
    };
    let (interface, function) = match split_once(member, '.') {
        Some(parts) => parts,
        None => {
            return Err(OperationError::MissingFunction);
        },
    };
    let (namespace, package) = match rsplit_once(qualifier, ':') {
        Some(parts) => parts,
        None => {
            return Err(OperationError::MissingPackage);
        },
    };
    let function = if function.is_empty() {
        None
    } else {
        Some(String::from_str(function))
    };
    proof {
        let meta = WitMeta {
            namespace: namespace@,
            package: package@,
            interface: interface@,
            function: function.deep_view(),
        };
        law_operation_parts(operation@, meta);
    }
    Ok(
        (
            String::from_str(namespace),
            String::from_str(package),
            String::from_str(interface),
            function,
        ),
    )
}

/// An operation's name has parts exactly if some parts make it up.
proof fn lemma_parsable(operation: Seq<char>)
    ensures
        operation_parts(operation) is Ok <==> exists|meta: WitMeta|
            #![trigger meta.operation()]
            meta.separable() && operation == meta.operation(),
{
    if operation_parts(operation) is Ok {
        let meta = operation_parts(operation)->Ok_0;
        law_operation_parts(operation, meta);
        assert(operation == meta.operation());
    }
    if exists|meta: WitMeta|
        #![trigger meta.operation()]
        meta.separable() && operation == meta.operation() {
        let meta = choose|meta: WitMeta|
            #![trigger meta.operation()]
            meta.separable() && operation == meta.operation();
        law_operation_parts(operation, meta);
    }
}

/// The parts that an operation's name is parsed into are the ones it is made of, and no other
/// parts make up the same name.
pub proof fn law_operation_parts(operation: Seq<char>, meta: WitMeta)
    ensures
        operation_parts(operation) == Ok::<WitMeta, OperationError>(meta) <==> (meta.separable()
            && operation == meta.operation()),
{
    let head = meta.namespace + seq![':'] + meta.package;
    let tail = meta.interface + seq!['.'] + meta.function_text();
    assert(meta.operation() == head + seq!['/'] + tail);
    lemma_split_last(operation, '/', head, tail);
    lemma_split_first(tail, '.', meta.interface, meta.function_text());
    lemma_split_last(head, ':', meta.namespace, meta.package);
    if meta.separable() && operation == meta.operation() {
        assert(!tail.contains('/')) by {
            if tail.contains('/') {
                let i = choose|i: int| 0 <= i < tail.len() && tail[i] == '/';
                if i < meta.interface.len() {
                    assert(meta.interface[i] == '/');
                } else if i > meta.interface.len() {
                    assert(meta.function_text()[i - meta.interface.len() - 1] == '/');
                }
            }
        }
    }
    if operation_parts(operation) == Ok::<WitMeta, OperationError>(meta) {
        let (h, t) = split_last(operation, '/').unwrap();
        lemma_split_last(operation, '/', h, t);
        let (i, f) = split_first(t, '.').unwrap();
        assert(f == meta.function_text());
        lemma_split_first(t, '.', meta.interface, meta.function_text());
        lemma_split_last(h, ':', meta.namespace, meta.package);
        assert(h == head);
        assert(t == tail);
        assert(!meta.interface.contains('/')) by {
            if meta.interface.contains('/') {
                let i = choose|i: int| 0 <= i < meta.interface.len() && meta.interface[i] == '/';
                assert(tail[i] == '/');
            }
        }
        assert(!meta.function_text().contains('/')) by {
            if meta.function_text().contains('/') {
                let f = meta.function_text();
                let i = choose|i: int| 0 <= i < f.len() && f[i] == '/';
                assert(tail[meta.interface.len() + 1 + i] == '/');
            }
        }
    }
}

/// Each error has its own cause, and they are looked for in this order: the name has no `/`;
/// what follows its last `/` has no `.`; what precedes its last `/` has no `:`. A name that has
/// none of these causes is parsed.
pub proof fn law_operation_errors(operation: Seq<char>, head: Seq<char>, tail: Seq<char>)
    ensures
        operation_parts(operation) == Err::<WitMeta, OperationError>(
            OperationError::MissingInterface,
        ) <==> !operation.contains('/'),
        operation == head + seq!['/'] + tail && !tail.contains('/') ==> {
            &&& operation_parts(operation) == Err::<WitMeta, OperationError>(
                OperationError::MissingFunction,
            ) <==> !tail.contains('.')
            &&& operation_parts(operation) == Err::<WitMeta, OperationError>(
                OperationError::MissingPackage,
            ) <==> tail.contains('.') && !head.contains(':')
            &&& operation_parts(operation) is Ok <==> tail.contains('.') && head.contains(':')
        },
{
    lemma_split_last(operation, '/', head, tail);
}

/// What the parser returns is the parts themselves, each in its place.
pub proof fn law_parsed_parts_are_returned(
    namespace: WitNamespace,
    package: WitPackage,
    interface: WitInterface,
    function: Option<WitFunction>,
    error: OperationError,
)
    ensures
        parsed_parts(Err(error)) == Err::<WitMeta, OperationError>(error),
        parsed_parts(Ok((namespace, package, interface, function))) matches Ok(meta)
            && meta.namespace == namespace@ && meta.package == package@ && meta.interface
            == interface@ && match function {
            Some(f) => meta.function == Some(f@),
            None => meta.function is None,
        },
{
}

} // verus!
