//! Kernel arguments captured by value for graph nodes.

use crate::digest;
use crate::digest::{u32_le, u64_le};
use crate::error::LaunchError;
use crate::kernel::KernelArg;
use crate::params;
use crate::params::word_of;
use vstd::prelude::*;

verus! {

/// How many arguments a captured launch can hold.
pub const PHYSICAL_SCALAR_MAX_KERNEL_ARGUMENTS: usize = 16;

/// How many bytes a captured argument can hold.
pub const PHYSICAL_SCALAR_MAX_ARGUMENT_BYTES: usize = 128;

/// The words of an argument that is a block of words.
pub open spec fn arg_words(arg: KernelArg) -> Seq<u32> {
    match arg {
        KernelArg::Pointer(_) => Seq::empty(),
        KernelArg::TensorMap(_) => Seq::empty(),
        KernelArg::Int(value) => seq![params::word_of(value)],
        KernelArg::Float(bits) => seq![bits],
        KernelArg::M64N64(block) => block.words(),
        KernelArg::ZeroReduction(block) => block.words(),
        KernelArg::Sm80(block) => block.words(),
        KernelArg::Sm90a(block) => block.words(),
        KernelArg::Sm100(block) => block.words(),
        KernelArg::Sm120(block) => block.words(),
        KernelArg::Sm120Fma(block) => block.words(),
    }
}

/// The device representation of an argument.
pub open spec fn arg_bytes(arg: KernelArg) -> Seq<u8> {
    match arg {
        KernelArg::Pointer(pointer) => digest::le_bytes(pointer as int, 8),
        KernelArg::TensorMap(map) => map.bytes@,
        _ => params::words_bytes(arg_words(arg)),
    }
}

fn bytes_of_words(words: &Vec<u32>) -> (bytes: Vec<u8>)
    ensures
        bytes@ == params::words_bytes(words@),
{
    let mut bytes: Vec<u8> = Vec::new();
    let mut i: usize = 0;
    while i < words.len()
        invariant
            i <= words@.len(),
            bytes@ == params::words_bytes(words@.subrange(0, i as int)),
        decreases words@.len() - i,
    {
        let ghost before = words@.subrange(0, i as int);
        let ghost after = words@.subrange(0, i + 1);
        let mut part = u32_le(words[i]);
        proof {
            digest::le_bytes_len(words@[i as int] as int, 4);
            assert forall|j: int| 0 <= j < 4 * (i + 1) implies (params::words_bytes(before)
                + digest::le_bytes(words@[i as int] as int, 4))[j] == params::words_bytes(
                after,
            )[j] by {
                if j >= 4 * i {
                    assert(j / 4 == i);
                    assert(j % 4 == j - 4 * i);
                } else {
                    assert(j / 4 < i);
                }
            }
            assert(params::words_bytes(before) + digest::le_bytes(words@[i as int] as int, 4)
                =~= params::words_bytes(after));
        }
        bytes.append(&mut part);
        i = i + 1;
    }
    assert(words@.subrange(0, i as int) =~= words@);
    bytes
}

/// The device representation of an argument.
pub fn argument_bytes(arg: &KernelArg) -> (bytes: Vec<u8>)
    ensures
        bytes@ == arg_bytes(*arg),
{
    let mut words: Vec<u32> = Vec::new();
    match *arg {
        KernelArg::Pointer(pointer) => {
            return u64_le(pointer);
        },
        KernelArg::TensorMap(map) => {
            return copy_of(map.bytes.as_slice());
        },
        KernelArg::Int(value) => {
            words.push(word_of(value));
        },
        KernelArg::Float(bits) => {
            words.push(bits);
        },
        KernelArg::M64N64(block) => {
            block.push_words(&mut words);
        },
        KernelArg::ZeroReduction(block) => {
            block.push_words(&mut words);
        },
        KernelArg::Sm80(block) => {
            block.push_words(&mut words);
        },
        KernelArg::Sm90a(block) => {
            block.push_words(&mut words);
        },
        KernelArg::Sm100(block) => {
            block.push_words(&mut words);
        },
        KernelArg::Sm120(block) => {
            block.push_words(&mut words);
        },
        KernelArg::Sm120Fma(block) => {
            block.push_words(&mut words);
        },
    }
    assert(words@ =~= arg_words(*arg));
    bytes_of_words(&words)
}

fn copy_of(bytes: &[u8]) -> (copy: Vec<u8>)
    ensures
        copy@ == bytes@,
{
    let mut copy: Vec<u8> = Vec::new();
    let mut i: usize = 0;
    while i < bytes.len()
        invariant
            i <= bytes@.len(),
            copy@ == bytes@.subrange(0, i as int),
        decreases bytes@.len() - i,
    {
        copy.push(bytes[i]);
        i = i + 1;
        assert(copy@ =~= bytes@.subrange(0, i as int));
    }
    assert(bytes@.subrange(0, i as int) =~= bytes@);
    copy
}

/// No argument is wider than a captured argument; a tensor map is as wide.
pub proof fn arguments_are_narrow(arg: KernelArg)
    ensures
        arg_bytes(arg).len() <= PHYSICAL_SCALAR_MAX_ARGUMENT_BYTES,
{
    digest::le_bytes_len_all();
}

/// One captured argument: its bytes, zero-filled to the fixed width.
#[derive(Debug, PartialEq, Eq)]
pub struct PhysicalScalarKernelArgument {
    bytes: Vec<u8>,
}

/// A byte string zero-filled to the width of a captured argument.
pub open spec fn zero_filled(value: Seq<u8>) -> Seq<u8> {
    value + Seq::new((PHYSICAL_SCALAR_MAX_ARGUMENT_BYTES - value.len()) as nat, |i: int| 0u8)
}

impl View for PhysicalScalarKernelArgument {
    type V = Seq<u8>;

    closed spec fn view(&self) -> Seq<u8> {
        self.bytes@
    }
}

impl PhysicalScalarKernelArgument {
    /// The captured bytes.
    pub fn bytes(&self) -> (bytes: &[u8])
        ensures
            bytes@ == self@,
    {
        self.bytes.as_slice()
    }

    /// Captures the bytes of a value.
    pub fn encode(value: &[u8]) -> (result: Result<PhysicalScalarKernelArgument, LaunchError>)
        ensures
            match result {
                Ok(argument) => value@.len() <= PHYSICAL_SCALAR_MAX_ARGUMENT_BYTES && argument@
                    == zero_filled(value@),
                Err(error) => value@.len() > PHYSICAL_SCALAR_MAX_ARGUMENT_BYTES && error
                    == LaunchError::ArgumentTooWide(value@.len() as usize),
            },
    {
        if value.len() > PHYSICAL_SCALAR_MAX_ARGUMENT_BYTES {
            return Err(LaunchError::ArgumentTooWide(value.len()));
        }
        let mut bytes: Vec<u8> = Vec::new();
        let mut i: usize = 0;
        while i < PHYSICAL_SCALAR_MAX_ARGUMENT_BYTES
            invariant
                i <= PHYSICAL_SCALAR_MAX_ARGUMENT_BYTES,
                value@.len() <= PHYSICAL_SCALAR_MAX_ARGUMENT_BYTES,
                bytes@ == zero_filled(value@).subrange(0, i as int),
            decreases PHYSICAL_SCALAR_MAX_ARGUMENT_BYTES - i,
        {
            if i < value.len() {
                bytes.push(value[i]);
            } else {
                bytes.push(0u8);
            }
            i = i + 1;
            assert(bytes@ =~= zero_filled(value@).subrange(0, i as int));
        }
        assert(zero_filled(value@).subrange(0, i as int) =~= zero_filled(value@));
        Ok(PhysicalScalarKernelArgument { bytes })
    }
}

/// The captured arguments of one launch, in order.
#[derive(Debug, PartialEq, Eq)]
pub struct PhysicalScalarKernelArguments {
    captured: Vec<PhysicalScalarKernelArgument>,
}

impl PhysicalScalarKernelArguments {
    #[verifier::type_invariant]
    spec fn inv(self) -> bool {
        self.captured@.len() <= PHYSICAL_SCALAR_MAX_KERNEL_ARGUMENTS
    }

    /// The captured bytes of every argument.
    pub closed spec fn arguments(self) -> Seq<Seq<u8>> {
        Seq::new(self.captured@.len(), |i: int| self.captured@[i]@)
    }

    /// No argument yet.
    pub fn new() -> (arguments: PhysicalScalarKernelArguments)
        ensures
            arguments.arguments() == Seq::<Seq<u8>>::empty(),
    {
        let arguments = PhysicalScalarKernelArguments { captured: Vec::new() };
        assert(arguments.arguments() =~= Seq::<Seq<u8>>::empty());
        arguments
    }

    /// Captures one more argument, if there is room and it is not too wide.
    /// A full list refuses before the width is looked at.
    pub fn push(&mut self, value: &[u8]) -> (result: Result<(), LaunchError>)
        ensures
            old(self).arguments().len() <= PHYSICAL_SCALAR_MAX_KERNEL_ARGUMENTS,
            result == (if old(self).arguments().len() >= PHYSICAL_SCALAR_MAX_KERNEL_ARGUMENTS {
                Err::<(), LaunchError>(
                    LaunchError::Rejected("physical scalar graph argument capacity exceeded"),
                )
            } else if value@.len() > PHYSICAL_SCALAR_MAX_ARGUMENT_BYTES {
                Err::<(), LaunchError>(
                    LaunchError::ArgumentTooWide(value@.len() as usize),
                )
            } else {
                Ok::<(), LaunchError>(())
            }),
            result is Err ==> final(self).arguments() == old(self).arguments(),
            result is Ok ==> final(self).arguments() == old(self).arguments().push(
                zero_filled(value@),
            ),
    {
        proof {
            use_type_invariant(&*self);
        }
        if self.captured.len() >= PHYSICAL_SCALAR_MAX_KERNEL_ARGUMENTS {
            return Err(LaunchError::Rejected("physical scalar graph argument capacity exceeded"));
        }
        let argument = PhysicalScalarKernelArgument::encode(value)?;
        let ghost before = self.arguments();
        let ghost captured_before = self.captured@;
        let mut captured: Vec<PhysicalScalarKernelArgument> = Vec::new();
        std::mem::swap(&mut captured, &mut self.captured);
        captured.push(argument);
        self.captured = captured;
        proof {
            assert(self.captured@ =~= captured_before.push(argument));
            assert(self.arguments() =~= before.push(zero_filled(value@)));
        }
        Ok(())
    }

    /// The captured arguments.
    pub fn values(&self) -> (values: &[PhysicalScalarKernelArgument])
        ensures
            values@.len() == self.arguments().len(),
            forall|i: int| 0 <= i < values@.len() ==> (#[trigger] values@[i])@ == self.arguments()[i],
    {
        self.captured.as_slice()
    }
}

/// The arguments of a launch under construction. A launch that is prepared
/// for a graph captures every argument; the first refusal is kept and later
/// arguments are not looked at.
#[derive(Debug)]
pub struct ScalarLaunchArgs {
    symbol: Option<&'static str>,
    prepared: Option<PhysicalScalarKernelArguments>,
    error: Option<LaunchError>,
}

/// What is captured, and which refusal is kept, after one more argument.
pub open spec fn after_capture(
    captured: Option<Seq<Seq<u8>>>,
    error: Option<LaunchError>,
    value: Seq<u8>,
) -> (Option<Seq<Seq<u8>>>, Option<LaunchError>) {
    match (captured, error) {
        (Some(before), None) => if before.len() >= PHYSICAL_SCALAR_MAX_KERNEL_ARGUMENTS {
            (
                captured,
                Some(LaunchError::Rejected("physical scalar graph argument capacity exceeded")),
            )
        } else if value.len() > PHYSICAL_SCALAR_MAX_ARGUMENT_BYTES {
            (captured, Some(LaunchError::ArgumentTooWide(value.len() as usize)))
        } else {
            (Some(before.push(zero_filled(value))), None)
        },
        _ => (captured, error),
    }
}

impl ScalarLaunchArgs {
    /// The kernel that is prepared for a graph.
    pub closed spec fn symbol(self) -> Option<&'static str> {
        self.symbol
    }

    /// What was captured so far.
    pub closed spec fn captured(self) -> Option<Seq<Seq<u8>>> {
        match self.prepared {
            Some(arguments) => Some(arguments.arguments()),
            None => None,
        }
    }

    /// The first refusal.
    pub closed spec fn error(self) -> Option<LaunchError> {
        self.error
    }

    /// Starts the arguments of a launch.
    pub fn new(symbol: &'static str, prepare_physical_graph: bool) -> (args: ScalarLaunchArgs)
        ensures
            args.symbol() == (if prepare_physical_graph { Some(symbol) } else { None }),
            args.captured() == (if prepare_physical_graph {
                Some(Seq::<Seq<u8>>::empty())
            } else {
                None
            }),
            args.error() == None::<LaunchError>,
    {
        if prepare_physical_graph {
            ScalarLaunchArgs {
                symbol: Some(symbol),
                prepared: Some(PhysicalScalarKernelArguments::new()),
                error: None,
            }
        } else {
            ScalarLaunchArgs { symbol: None, prepared: None, error: None }
        }
    }

    /// Captures one argument where the launch is prepared for a graph and
    /// nothing was refused before.
    pub fn capture_argument(&mut self, value: &[u8])
        ensures
            final(self).symbol() == old(self).symbol(),
            (final(self).captured(), final(self).error()) == after_capture(
                old(self).captured(),
                old(self).error(),
                value@,
            ),
    {
        if self.error.is_some() {
            return ;
        }
        match self.prepared.take() {
            None => {},
            Some(mut arguments) => {
                match arguments.push(value) {
                    Ok(_) => {},
                    Err(error) => {
                        self.error = Some(error);
                    },
                }
                self.prepared = Some(arguments);
            },
        }
    }

    /// Hands the captured arguments out: the first refusal comes first, then
    /// a launch that was not prepared for a graph, then one whose arguments
    /// were handed out before.
    pub fn take_prepared(&mut self) -> (result: Result<
        (&'static str, PhysicalScalarKernelArguments),
        LaunchError,
    >)
        ensures
            match result {
                Ok((symbol, arguments)) => {
                    &&& old(self).error() == None::<LaunchError>
                    &&& old(self).symbol() == Some(symbol)
                    &&& old(self).captured() == Some(arguments.arguments())
                    &&& final(self).symbol() == None::<&'static str>
                    &&& final(self).captured() == None::<Seq<Seq<u8>>>
                },
                Err(error) => error == (if old(self).error() is Some {
                    old(self).error()->Some_0
                } else if old(self).symbol() is None {
                    LaunchError::Rejected(
                        "scalar launch arguments were not configured for physical graph preparation",
                    )
                } else {
                    LaunchError::Rejected("scalar launch argument storage was already consumed")
                }),
            },
            result is Ok <==> old(self).error() is None && old(self).symbol() is Some && old(self).captured() is Some,
    {
        if let Some(error) = self.error.take() {
            return Err(error);
        }
        let symbol = match self.symbol.take() {
            None => {
                return Err(
                    LaunchError::Rejected(
                        "scalar launch arguments were not configured for physical graph preparation",
                    ),
                );
            },
            Some(symbol) => symbol,
        };
        match self.prepared.take() {
            None => Err(
                LaunchError::Rejected("scalar launch argument storage was already consumed"),
            ),
            Some(arguments) => Ok((symbol, arguments)),
        }
    }
}

} // verus!
