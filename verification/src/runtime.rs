//! The command-line client's decisions: which sockets it knows, whether
//! its single argument is inline NOTA text or a path to a NOTA file, and
//! the request texts it decodes. Reading the file, decoding NOTA and
//! talking to the daemon happen at the edge.

use vstd::prelude::*;

use crate::actors::vocabulary::Operation;
use crate::daemon::SocketPath;
use crate::store::{OutputStream, OutputTarget};
use crate::error::Error;

verus! {

broadcast use vstd::string::axiom_spec_iter, vstd::string::next_postcondition;

/// The one argument a spirit binary accepts: inline NOTA text, or the path
/// of a NOTA file.
#[derive(Debug, PartialEq, Eq)]
pub struct SingleArgument {
    value: String,
}

impl View for SingleArgument {
    type V = Seq<char>;

    closed spec fn view(&self) -> Seq<char> {
        self.value@
    }
}

impl Clone for SingleArgument {
    fn clone(&self) -> (argument: Self)
        ensures
            argument@ == self@,
    {
        SingleArgument { value: self.value.clone() }
    }
}

/// Whether an argument is inline NOTA: it opens a record with `(`.
pub open spec fn is_inline_nota(text: Seq<char>) -> bool {
    text.len() > 0 && text[0] == '('
}

/// Whether an argument is flag-style: it begins with `-`.
pub open spec fn is_flag(text: Seq<char>) -> bool {
    text.len() > 0 && text[0] == '-'
}

/// The program name of a command line: its first word, or nothing.
pub open spec fn program_name(arguments: Seq<String>) -> Seq<char> {
    if arguments.len() == 0 {
        Seq::empty()
    } else {
        arguments[0]@
    }
}

/// Whether `text` begins with `first`.
fn begins_with(text: &str, first: char) -> (begins: bool)
    ensures
        begins == (text@.len() > 0 && text@[0] == first),
{
    let mut characters = text.chars();
    match characters.next() {
        Some(character) => character == first,
        None => false,
    }
}

impl SingleArgument {
    /// The single argument of a command line whose first word is the
    /// program: exactly one argument must follow it, and it must not be
    /// flag-style.
    pub fn from_arguments(arguments: Vec<String>) -> (argument: Result<SingleArgument, Error>)
        ensures
            arguments@.len() != 2 ==> (argument matches Err(Error::WrongArgumentCount {
                program,
                found,
            }) && program@ == program_name(arguments@) && found == (if arguments@.len() == 0 {
                0
            } else {
                arguments@.len() - 1
            })),
            arguments@.len() == 2 && is_flag(arguments@[1]@) ==> (argument matches Err(
                Error::FlagArgument { program, argument },
            ) && program@ == arguments@[0]@ && argument@ == arguments@[1]@),
            arguments@.len() == 2 && !is_flag(arguments@[1]@) ==> (argument matches Ok(single)
                && single@ == arguments@[1]@),
    {
        let count = arguments.len();
        if count != 2 {
            let program = if count == 0 {
                String::new()
            } else {
                arguments[0].clone()
            };
            let found = if count == 0 {
                0
            } else {
                count - 1
            };
            return Err(Error::WrongArgumentCount { program, found });
        }
        let program = arguments[0].clone();
        let value = arguments[1].clone();
        if begins_with(value.as_str(), '-') {
            return Err(Error::FlagArgument { program, argument: value });
        }
        Ok(SingleArgument { value })
    }

    pub fn new(value: String) -> (argument: Self)
        ensures
            argument@ == value@,
    {
        SingleArgument { value }
    }

    pub fn as_str(&self) -> (value: &str)
        ensures
            value@ == self@,
    {
        self.value.as_str()
    }

    /// The argument's NOTA text when it is given inline; `None` when it
    /// names a file whose contents are the text.
    pub fn inline_text(&self) -> (text: Option<String>)
        ensures
            match text {
                Some(inline) => is_inline_nota(self@) && inline@ == self@,
                None => !is_inline_nota(self@),
            },
    {
        let mut characters = self.value.as_str().chars();
        let first = characters.next();
        match first {
            Some(character) => {
                if character == '(' {
                    Some(self.value.clone())
                } else {
                    None
                }
            },
            None => None,
        }
    }
}

/// The sockets the client may talk to.
#[derive(Debug, Clone, PartialEq, Eq)]
pub struct CommandLineSockets {
    ordinary_socket: Option<SocketPath>,
    owner_socket: Option<SocketPath>,
}

pub open spec fn socket_view(socket: Option<SocketPath>) -> Option<Seq<char>> {
    match socket {
        Some(path) => Some(path@),
        None => None,
    }
}

impl CommandLineSockets {
    pub closed spec fn spec_ordinary(&self) -> Option<Seq<char>> {
        socket_view(self.ordinary_socket)
    }

    pub closed spec fn spec_owner(&self) -> Option<Seq<char>> {
        socket_view(self.owner_socket)
    }

    pub fn new(ordinary_socket: Option<SocketPath>, owner_socket: Option<SocketPath>) -> (sockets:
        Self)
        ensures
            sockets.spec_ordinary() == socket_view(ordinary_socket),
            sockets.spec_owner() == socket_view(owner_socket),
    {
        CommandLineSockets { ordinary_socket, owner_socket }
    }

    /// Only the ordinary socket is known.
    pub fn ordinary_only(socket: SocketPath) -> (sockets: Self)
        ensures
            sockets.spec_ordinary() == Some(socket@),
            sockets.spec_owner() is None,
    {
        Self::new(Some(socket), None)
    }

    /// The ordinary socket, or `MissingSpiritSocket` when none is known.
    pub fn ordinary_socket(&self) -> (socket: Result<&SocketPath, Error>)
        ensures
            match socket {
                Ok(path) => self.spec_ordinary() == Some(path@),
                Err(error) => self.spec_ordinary() is None && error == Error::MissingSpiritSocket,
            },
    {
        match &self.ordinary_socket {
            Some(path) => Ok(path),
            None => Err(Error::MissingSpiritSocket),
        }
    }

    /// The owner socket, or `MissingOwnerSpiritSocket` when none is known.
    pub fn owner_socket(&self) -> (socket: Result<&SocketPath, Error>)
        ensures
            match socket {
                Ok(path) => self.spec_owner() == Some(path@),
                Err(error) => self.spec_owner() is None && error == Error::MissingOwnerSpiritSocket,
            },
    {
        match &self.owner_socket {
            Some(path) => Ok(path),
            None => Err(Error::MissingOwnerSpiritSocket),
        }
    }
}

/// Where the client's request text comes from.
#[derive(Debug, Clone, PartialEq, Eq)]
pub struct RequestInput {
    argument: SingleArgument,
}

impl RequestInput {
    pub closed spec fn spec_argument(&self) -> Seq<char> {
        self.argument@
    }

    pub fn new(argument: SingleArgument) -> (input: Self)
        ensures
            input.spec_argument() == argument@,
    {
        RequestInput { argument }
    }

    /// The request text when the argument is inline NOTA; `None` when the
    /// argument is the path of the file that holds it.
    pub fn inline_text(&self) -> (text: Option<String>)
        ensures
            match text {
                Some(inline) => is_inline_nota(self.spec_argument()) && inline@
                    == self.spec_argument(),
                None => !is_inline_nota(self.spec_argument()),
            },
    {
        self.argument.inline_text()
    }

    /// The path of the file holding the request, when the argument is one.
    pub fn file_path(&self) -> (path: Option<&str>)
        ensures
            match path {
                Some(file) => !is_inline_nota(self.spec_argument()) && file@
                    == self.spec_argument(),
                None => is_inline_nota(self.spec_argument()),
            },
    {
        match self.argument.inline_text() {
            Some(_) => None,
            None => Some(self.argument.as_str()),
        }
    }
}

/// The NOTA text of an ordinary-socket request.
#[derive(Debug, Clone, PartialEq, Eq)]
pub struct RequestText {
    text: String,
}

impl RequestText {
    pub closed spec fn spec_text(&self) -> Seq<char> {
        self.text@
    }

    pub fn new(text: String) -> (request: Self)
        ensures
            request.spec_text() == text@,
    {
        RequestText { text }
    }

    pub fn as_str(&self) -> (text: &str)
        ensures
            text@ == self.spec_text(),
    {
        self.text.as_str()
    }
}

/// The NOTA text of an owner-socket request.
#[derive(Debug, Clone, PartialEq, Eq)]
pub struct OwnerRequestText {
    text: String,
}

impl OwnerRequestText {
    pub closed spec fn spec_text(&self) -> Seq<char> {
        self.text@
    }

    pub fn new(text: String) -> (request: Self)
        ensures
            request.spec_text() == text@,
    {
        OwnerRequestText { text }
    }

    pub fn as_str(&self) -> (text: &str)
        ensures
            text@ == self.spec_text(),
    {
        self.text.as_str()
    }
}

/// The command-line client: its request input and the sockets it knows.
#[derive(Debug, Clone, PartialEq, Eq)]
pub struct Client {
    input: RequestInput,
    sockets: CommandLineSockets,
}

impl Client {
    pub closed spec fn spec_input(&self) -> Seq<char> {
        self.input.spec_argument()
    }

    pub closed spec fn spec_sockets(&self) -> (Option<Seq<char>>, Option<Seq<char>>) {
        (self.sockets.spec_ordinary(), self.sockets.spec_owner())
    }

    /// A client that knows the sockets named in its environment.
    pub fn with_environment_sockets(argument: SingleArgument, sockets: CommandLineSockets) -> (client:
        Self)
        ensures
            client.spec_input() == argument@,
            client.spec_sockets() == (sockets.spec_ordinary(), sockets.spec_owner()),
    {
        Client { input: RequestInput::new(argument), sockets }
    }

    /// A client that knows only the ordinary socket.
    pub fn with_socket(argument: SingleArgument, socket: SocketPath) -> (client: Self)
        ensures
            client.spec_input() == argument@,
            client.spec_sockets() == (Some(socket@), None::<Seq<char>>),
    {
        Client { input: RequestInput::new(argument), sockets: CommandLineSockets::ordinary_only(socket) }
    }

    /// A client that knows both sockets.
    pub fn with_sockets(argument: SingleArgument, ordinary_socket: SocketPath, owner_socket: SocketPath) -> (client:
        Self)
        ensures
            client.spec_input() == argument@,
            client.spec_sockets() == (Some(ordinary_socket@), Some(owner_socket@)),
    {
        Client {
            input: RequestInput::new(argument),
            sockets: CommandLineSockets::new(Some(ordinary_socket), Some(owner_socket)),
        }
    }

    pub fn input(&self) -> (input: &RequestInput)
        ensures
            input.spec_argument() == self.spec_input(),
    {
        &self.input
    }

    pub fn sockets(&self) -> (sockets: &CommandLineSockets)
        ensures
            (sockets.spec_ordinary(), sockets.spec_owner()) == self.spec_sockets(),
    {
        &self.sockets
    }
}

/// The stream an operation's reply text is printed to: a removal-candidate
/// collection printed to a stream names it; everything else prints to
/// standard output.
pub open spec fn stream_for_operation(operation: Operation) -> OutputStream {
    match operation {
        Operation::CollectRemovalCandidates(collection) => match collection.output_target {
            OutputTarget::Print(stream) => stream,
            OutputTarget::ArchiveDatabase(_) => OutputStream::StandardOutput,
        },
        _ => OutputStream::StandardOutput,
    }
}

/// The stream a request's reply text is printed to: standard error as
/// soon as one of its operations asks for it, standard output otherwise.
pub open spec fn stream_for_request(operations: Seq<Operation>) -> OutputStream {
    if exists|i: int|
        0 <= i < operations.len() && #[trigger] stream_for_operation(operations[i])
            == OutputStream::StandardError {
        OutputStream::StandardError
    } else {
        OutputStream::StandardOutput
    }
}

/// Where the reply text of a request is printed.
pub struct RequestOutputStream {
    stream: OutputStream,
}

impl RequestOutputStream {
    pub closed spec fn spec_stream(&self) -> OutputStream {
        self.stream
    }

    pub fn from_operation(operation: &Operation) -> (output: Self)
        ensures
            output.spec_stream() == stream_for_operation(*operation),
    {
        let stream = match operation {
            Operation::CollectRemovalCandidates(collection) => match &collection.output_target {
                OutputTarget::Print(stream) => *stream,
                OutputTarget::ArchiveDatabase(_) => OutputStream::StandardOutput,
            },
            _ => OutputStream::StandardOutput,
        };
        RequestOutputStream { stream }
    }

    pub fn from_working_request(operations: &Vec<Operation>) -> (output: Self)
        ensures
            output.spec_stream() == stream_for_request(operations@),
    {
        let mut stream = OutputStream::StandardOutput;
        let mut index: usize = 0;
        while index < operations.len()
            invariant
                index <= operations@.len(),
                stream == stream_for_request(operations@.take(index as int)),
            decreases operations@.len() - index,
        {
            let asked = Self::from_operation(&operations[index]);
            proof {
                let before = operations@.take(index as int);
                let after = operations@.take(index + 1);
                assert(after[index as int] == operations@[index as int]);
                assert forall|i: int| 0 <= i < before.len() implies #[trigger] before[i]
                    == after[i] by {}
                if stream_for_request(after) == OutputStream::StandardError {
                    if stream_for_operation(operations@[index as int]) != OutputStream::StandardError {
                        let i = choose|i: int|
                            0 <= i < after.len() && #[trigger] stream_for_operation(after[i])
                                == OutputStream::StandardError;
                        assert(before[i] == after[i]);
                    }
                }
            }
            if asked.stream == OutputStream::StandardError {
                stream = OutputStream::StandardError;
            }
            index = index + 1;
        }
        assert(operations@.take(operations@.len() as int) =~= operations@);
        RequestOutputStream { stream }
    }

    pub fn into_stream(self) -> (stream: OutputStream)
        ensures
            stream == self.spec_stream(),
    {
        self.stream
    }
}

} // verus!
