//! A device buffer tagged with the type and the number of its elements.

use vstd::prelude::*;
use crate::command::Command;
use crate::format::ElementType;

verus! {

/// Why a typed access to a buffer was turned down.
#[derive(Clone, Copy, Debug, PartialEq, Eq, Structural)]
pub enum BufferError {
    /// The access names another element type than the buffer was stored with
    /// (or the buffer has no store yet).
    TypeMismatch,
    /// The host array does not hold exactly the buffer's elements.
    SizeMismatch,
    /// The buffer already has its store, which is immutable.
    AlreadyStored,
    /// The host array holds more elements than a buffer can count.
    TooLarge,
    /// The store was created without `DYNAMIC_STORAGE`: the host cannot
    /// write to it again.
    Immutable,
}

/// The creation flag that lets the host write to the store after it was
/// created. Without it the store is fully immutable.
pub const DYNAMIC_STORAGE: u32 = 0x0100;

/// A device buffer: its handle, and the element type, element count and
/// flags that its store was created with.
#[derive(Debug)]
pub struct Buffer {
    handle: u32,
    len: u32,
    element: Option<ElementType>,
    flags: u32,
}

impl Buffer {
    #[verifier::type_invariant]
    spec fn wf(self) -> bool {
        self.element is None ==> self.len == 0
    }

    /// The device handle.
    pub closed spec fn spec_handle(&self) -> u32 {
        self.handle
    }

    /// The number of elements in the store; 0 while there is none.
    pub closed spec fn spec_len(&self) -> u32 {
        self.len
    }

    /// The element type of the store; `None` while there is none.
    pub closed spec fn spec_element(&self) -> Option<ElementType> {
        self.element
    }

    /// The flags the store was created with; 0 while there is none.
    pub closed spec fn spec_flags(&self) -> u32 {
        self.flags
    }

    /// Size of the store in bytes: element count times stride.
    pub open spec fn byte_size(self) -> nat {
        match self.spec_element() {
            Some(e) => (self.spec_len() * e.spec_stride()) as nat,
            None => 0,
        }
    }

    /// The reason for which `storage` turns down a host array of `n` bytes,
    /// if there is one.
    pub open spec fn storage_error(self, element: ElementType, n: nat) -> Option<BufferError> {
        if self.spec_element() is Some {
            Some(BufferError::AlreadyStored)
        } else if n % element.spec_stride() != 0 {
            Some(BufferError::SizeMismatch)
        } else if n / element.spec_stride() > u32::MAX {
            Some(BufferError::TooLarge)
        } else {
            None
        }
    }

    /// `self` is the buffer that a successful `storage` of `n` bytes of
    /// `element`s with `flags` leaves behind, when called on `before`.
    pub open spec fn stored_from(
        self,
        before: Buffer,
        element: ElementType,
        n: nat,
        flags: u32,
    ) -> bool {
        &&& self.spec_handle() == before.spec_handle()
        &&& self.spec_flags() == flags
        &&& self.spec_element() == Some(element)
        &&& self.spec_len() == n / element.spec_stride()
        &&& self.byte_size() == n
    }

    /// The reason for which a read of `element`s into a host array of `n`
    /// bytes is turned down, if there is one.
    pub open spec fn read_error(self, element: ElementType, n: nat) -> Option<BufferError> {
        if self.spec_element() != Some(element) {
            Some(BufferError::TypeMismatch)
        } else if n != self.byte_size() {
            Some(BufferError::SizeMismatch)
        } else {
            None
        }
    }

    /// The host may write to the store.
    pub open spec fn writable(self) -> bool {
        self.spec_flags() & DYNAMIC_STORAGE != 0
    }

    /// The reason for which a write of `element`s from a host array of `n`
    /// bytes is turned down, if there is one: the type is checked first,
    /// then the length, then whether the store takes writes at all.
    pub open spec fn write_error(self, element: ElementType, n: nat) -> Option<BufferError> {
        if self.spec_element() != Some(element) {
            Some(BufferError::TypeMismatch)
        } else if n != self.byte_size() {
            Some(BufferError::SizeMismatch)
        } else if !self.writable() {
            Some(BufferError::Immutable)
        } else {
            None
        }
    }

    /// The command that overwrites the whole store.
    pub open spec fn write_command(self) -> Command {
        Command::WriteBuffer { buffer: self.spec_handle(), offset: 0, size: self.byte_size() as usize }
    }

    /// The command that reads the whole store.
    pub open spec fn read_command(self) -> Command {
        Command::ReadBuffer { buffer: self.spec_handle(), offset: 0, size: self.byte_size() as usize }
    }

    /// Wraps a handle that the device has just created: no store, no elements.
    pub fn create(handle: u32) -> (b: Buffer)
        ensures
            b.spec_handle() == handle,
            b.spec_len() == 0,
            b.spec_element() is None,
            b.spec_flags() == 0,
    {
        Buffer { handle, len: 0, element: None, flags: 0 }
    }

    /// Gives the buffer its immutable store, sized and filled from `data`,
    /// which holds whole elements of type `element`, tightly packed.
    ///
    /// On success the buffer records the element type and count, and the
    /// result is the upload to perform with `data`. On failure the buffer is
    /// unchanged.
    pub fn storage(&mut self, element: ElementType, data: &[u8], flags: u32) -> (r: Result<
        Command,
        BufferError,
    >)
        ensures
            match r {
                Ok(c) => {
                    &&& old(self).storage_error(element, data@.len()) is None
                    &&& final(self).stored_from(*old(self), element, data@.len(), flags)
                    &&& c == (Command::BufferStorage {
                        buffer: old(self).spec_handle(),
                        size: data@.len() as usize,
                        flags,
                    })
                },
                Err(e) => {
                    &&& old(self).storage_error(element, data@.len()) == Some(e)
                    &&& *final(self) == *old(self)
                },
            },
    {
        if self.element.is_some() {
            return Err(BufferError::AlreadyStored);
        }
        let stride = element.stride();
        let n = data.len();
        if n % stride != 0 {
            return Err(BufferError::SizeMismatch);
        }
        let count = n / stride;
        if count > u32::MAX as usize {
            return Err(BufferError::TooLarge);
        }
        proof {
            vstd::arithmetic::div_mod::lemma_fundamental_div_mod(n as int, stride as int);
            assert(count * stride == stride * count) by (nonlinear_arith);
        }
        let handle = self.handle;
        *self = Buffer { handle, len: count as u32, element: Some(element), flags };
        Ok(Command::BufferStorage { buffer: handle, size: n, flags })
    }

    /// Wraps a fresh handle and gives it its store in one step.
    pub fn new(handle: u32, element: ElementType, data: &[u8], flags: u32) -> (r: Result<
        (Buffer, Command),
        BufferError,
    >)
        ensures
            match r {
                Ok((b, c)) => {
                    &&& data@.len() % element.spec_stride() == 0
                    &&& data@.len() / element.spec_stride() <= u32::MAX
                    &&& b.spec_handle() == handle
                    &&& b.spec_element() == Some(element)
                    &&& b.spec_flags() == flags
                    &&& b.spec_len() == data@.len() / element.spec_stride()
                    &&& b.byte_size() == data@.len()
                    &&& c == (Command::BufferStorage { buffer: handle, size: data@.len() as usize, flags })
                },
                Err(e) => {
                    if data@.len() % element.spec_stride() != 0 {
                        e == BufferError::SizeMismatch
                    } else {
                        &&& e == BufferError::TooLarge
                        &&& data@.len() / element.spec_stride() > u32::MAX
                    }
                },
            },
    {
        let mut b = Buffer::create(handle);
        match b.storage(element, data, flags) {
            Ok(c) => Ok((b, c)),
            Err(e) => Err(e),
        }
    }

    /// Returns the number of elements in the buffer.
    #[verifier::when_used_as_spec(spec_len)]
    pub fn len(&self) -> (n: u32)
        ensures
            n == self.spec_len(),
    {
        self.len
    }

    /// Returns the device handle.
    #[verifier::when_used_as_spec(spec_handle)]
    pub fn handle(&self) -> (h: u32)
        ensures
            h == self.spec_handle(),
    {
        self.handle
    }

    /// Returns the flags the store was created with.
    #[verifier::when_used_as_spec(spec_flags)]
    pub fn flags(&self) -> (f: u32)
        ensures
            f == self.spec_flags(),
    {
        self.flags
    }

    /// Returns the element type of the store, if the buffer has one.
    #[verifier::when_used_as_spec(spec_element)]
    pub fn element(&self) -> (e: Option<ElementType>)
        ensures
            e == self.spec_element(),
    {
        self.element
    }

    /// The store's size always fits the host's address space.
    pub proof fn lemma_byte_size_bound(self)
        ensures
            self.byte_size() <= 16 * u32::MAX,
    {
        match self.spec_element() {
            Some(e) => {
                assert(self.spec_len() * e.spec_stride() <= 16 * u32::MAX) by (nonlinear_arith)
                    requires
                        self.spec_len() <= u32::MAX,
                        e.spec_stride() <= 16,
                ;
            },
            None => {},
        }
    }

    /// Size of the store in bytes.
    pub fn size_in_bytes(&self) -> (n: u64)
        ensures
            n == self.byte_size(),
    {
        proof {
            self.lemma_byte_size_bound();
        }
        match self.element {
            Some(e) => {
                let s: u64 = e.stride() as u64;
                let l: u64 = self.len as u64;
                assert(l * s <= 16 * u32::MAX) by (nonlinear_arith)
                    requires
                        l <= u32::MAX,
                        s <= 16,
                ;
                l * s
            },
            None => 0,
        }
    }

    /// Checks a write of the whole store from `data`, a host array of
    /// `element`s, and returns the write to perform.
    ///
    /// The write is turned down when `element` is not the type the store was
    /// created with, otherwise when `data` is not exactly as long as the
    /// store, and otherwise when the store was created without
    /// `DYNAMIC_STORAGE`.
    pub fn write(&self, element: ElementType, data: &[u8]) -> (r: Result<Command, BufferError>)
        ensures
            match r {
                Ok(c) => self.write_error(element, data@.len()) is None && c == self.write_command(),
                Err(e) => self.write_error(element, data@.len()) == Some(e),
            },
    {
        if self.element != Some(element) {
            return Err(BufferError::TypeMismatch);
        }
        let size = self.size_in_bytes();
        if data.len() as u64 != size {
            return Err(BufferError::SizeMismatch);
        }
        if self.flags & DYNAMIC_STORAGE == 0 {
            return Err(BufferError::Immutable);
        }
        Ok(Command::WriteBuffer { buffer: self.handle, offset: 0, size: data.len() })
    }

    /// Gives the buffer up: the result is the one command that releases it.
    pub fn release(self) -> (c: Command)
        ensures
            c == (Command::DeleteBuffer { buffer: self.spec_handle() }),
    {
        Command::DeleteBuffer { buffer: self.handle }
    }

    /// Checks a read of the whole store into `data`, a host array of
    /// `element`s, and returns the read to perform.
    ///
    /// The read is turned down when `element` is not the type the store was
    /// created with, and otherwise when `data` is not exactly as long as the
    /// store.
    pub fn copy_data(&self, element: ElementType, data: &[u8]) -> (r: Result<Command, BufferError>)
        ensures
            match r {
                Ok(c) => self.read_error(element, data@.len()) is None && c == self.read_command(),
                Err(e) => self.read_error(element, data@.len()) == Some(e),
            },
    {
        if self.element != Some(element) {
            return Err(BufferError::TypeMismatch);
        }
        let size = self.size_in_bytes();
        if data.len() as u64 != size {
            return Err(BufferError::SizeMismatch);
        }
        Ok(Command::ReadBuffer { buffer: self.handle, offset: 0, size: data.len() })
    }

    /// Allocates a host array for the whole store, zero-filled, and returns
    /// it with the read that fills it.
    pub fn get_data(&self, element: ElementType) -> (r: Result<(Vec<u8>, Command), BufferError>)
        ensures
            match r {
                Ok((data, c)) => {
                    &&& self.spec_element() == Some(element)
                    &&& data@.len() == self.byte_size()
                    &&& c == self.read_command()
                },
                Err(e) => {
                    if self.spec_element() != Some(element) {
                        e == BufferError::TypeMismatch
                    } else {
                        e == BufferError::TooLarge && self.byte_size() > usize::MAX
                    }
                },
            },
    {
        if self.element != Some(element) {
            return Err(BufferError::TypeMismatch);
        }
        let size = self.size_in_bytes();
        if size > usize::MAX as u64 {
            return Err(BufferError::TooLarge);
        }
        let n: usize = size as usize;
        let data: Vec<u8> = vec![0u8; n];
        Ok((data, Command::ReadBuffer { buffer: self.handle, offset: 0, size: n }))
    }
}

} // verus!
