use vstd::prelude::*;

verus! {

/// A register-oriented SPI-style interface carried over a byte transport
/// (a UART) with the `R`/`W` framing of [`crate::Frame`].
///
/// The adapter owns its transport exclusively from `new` until `free`.
pub struct UARTSPI<UART> {
    uart: UART,
}

impl<UART> UARTSPI<UART> {
    /// The adapter that owns `uart`.
    pub closed spec fn wrapped(uart: UART) -> Self {
        UARTSPI { uart }
    }

    /// The transport this adapter owns.
    pub closed spec fn transport(&self) -> UART {
        self.uart
    }

    /// Wrap the framing protocol around the transport `uart`.
    pub fn new(uart: UART) -> (r: Self)
        ensures
            r == Self::wrapped(uart),
    {
        UARTSPI { uart }
    }

    /// Give the transport back, ending the adapter.
    pub fn free(self) -> (r: UART)
        ensures
            r == self.transport(),
    {
        self.uart
    }

    /// Borrow the transport to carry out the operations of a frame.
    pub fn transport_mut(&mut self) -> (r: &mut UART)
        ensures
            *r == old(self).transport(),
            final(self).transport() == *final(r),
    {
        &mut self.uart
    }
}

/// Wrapping a transport and freeing it again gives back that very
/// transport, untouched: nothing is sent in between.
pub proof fn lemma_free_after_new<UART>(uart: UART)
    ensures
        UARTSPI::<UART>::wrapped(uart).transport() == uart,
{
}

} // verus!
