use vstd::prelude::*;

verus! {

/// The result type of a pool: what a worker produces from one input.
/// It is shared across threads and duplicated on the way back to the caller.
pub trait MessageData: Sized + Sync + Send + Clone + 'static {
    /// An empty result, held by a freshly built envelope.
    fn new() -> Self;
}

/// The input type of a pool: one unit of work, meaningful for the result type `T`.
pub trait MessageInput<T>: Sized + Sync + Send + Clone + 'static where T: MessageData {
    /// An empty input, held by a freshly built envelope.
    fn new() -> Self;
}

/// The envelope that carries one input of type `R` to a worker and one result
/// of type `T` back to the coordinator.
pub trait Message<T, R>: Sized + Sync + Send + Clone + 'static where
    R: MessageInput<T>,
    T: MessageData,
 {
    /// The input the envelope holds.
    spec fn input_spec(&self) -> R;

    /// The result the envelope holds.
    spec fn data_spec(&self) -> T;

    /// Installs an input, replacing the one held before; the result is kept.
    fn set_input(&mut self, message_input: R)
        ensures
            final(self).input_spec() == message_input,
            final(self).data_spec() == old(self).data_spec(),
    ;

    /// Runs the transformation: uses the installed input to overwrite the held result.
    fn work(&mut self);

    /// An empty input of the envelope's input type.
    fn new_message_input() -> R {
        R::new()
    }

    /// An empty result of the envelope's result type.
    fn new_message_data() -> T {
        T::new()
    }

    /// A copy of the result the envelope holds.
    fn clone_message_data(&self) -> (r: T)
        ensures
            r == self.data_spec(),
    ;

    /// A fresh envelope holding an empty input and an empty result.
    fn new() -> Self;
}

} // verus!
