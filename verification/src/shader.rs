//! A custom shader widget.
use vstd::prelude::*;
use crate::layout::{HUNDRED_BITS, Length, Size};
use std::marker::PhantomData;

verus! {

/// A widget which renders custom shaders, described by a program.
pub struct Shader<Message, Program> {
    width: Length,
    height: Length,
    program: Program,
    _message: PhantomData<Message>,
}

impl<Message, Program> Shader<Message, Program> {
    /// The program of the shader.
    pub closed spec fn spec_program(&self) -> Program {
        self.program
    }

    /// The size of the widget, as a value.
    pub closed spec fn spec_size(&self) -> Size {
        Size { width: self.width, height: self.height }
    }

    /// Creates a new custom [`Shader`], 100 by 100 pixels.
    pub fn new(program: Program) -> (r: Self)
        ensures
            r.spec_program() == program,
            r.spec_size() == (Size {
                width: Length::Fixed(HUNDRED_BITS),
                height: Length::Fixed(HUNDRED_BITS),
            }),
    {
        Shader {
            width: Length::Fixed(HUNDRED_BITS),
            height: Length::Fixed(HUNDRED_BITS),
            program,
            _message: PhantomData,
        }
    }

    /// Sets the `width` of the custom [`Shader`].
    pub fn width(self, width: Length) -> (r: Self)
        ensures
            r.spec_program() == self.spec_program(),
            r.spec_size() == (Size { width, ..self.spec_size() }),
    {
        Shader { width, ..self }
    }

    /// Sets the `height` of the custom [`Shader`].
    pub fn height(self, height: Length) -> (r: Self)
        ensures
            r.spec_program() == self.spec_program(),
            r.spec_size() == (Size { height, ..self.spec_size() }),
    {
        Shader { height, ..self }
    }

    /// The size of the widget.
    pub fn size(&self) -> (r: Size)
        ensures
            r == self.spec_size(),
    {
        Size { width: self.width, height: self.height }
    }
}

} // verus!
