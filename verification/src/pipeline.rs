//! Typed transformations: a transformation declares the types of its inputs
//! and outputs; a caller is fed one input per declared type, in order, and is
//! then called.
use vstd::prelude::*;
use std::collections::VecDeque;

verus! {

/// The kinds of value that flow between transformations.
#[derive(PartialEq, Eq, Structural, Clone, Copy, Debug)]
pub enum Type {
    Integer,
    Image2d,
}

/// A transformation's signature: the types it takes and the types it gives.
pub struct Transformation {
    pub input: Vec<Type>,
    pub output: Vec<Type>,
}

/// A value of one of the kinds of `Type`. The pixels of a 2D image are held in
/// a value of type `Img`, which this module carries through without reading.
pub enum TypeContent<Img> {
    Integer(u64),
    Image2d(Img),
}

impl<Img> TypeContent<Img> {
    /// The kind of this value.
    pub open spec fn type_of(&self) -> Type {
        match self {
            TypeContent::Integer(_) => Type::Integer,
            TypeContent::Image2d(_) => Type::Image2d,
        }
    }

    /// The kind of this value.
    pub fn get_type(&self) -> (t: Type)
        ensures
            t == self.type_of(),
    {
        match self {
            TypeContent::Integer(_) => Type::Integer,
            TypeContent::Image2d(_) => Type::Image2d,
        }
    }
}

/// The kinds of a sequence of values, one for one.
pub open spec fn types_of<Img>(values: Seq<TypeContent<Img>>) -> Seq<Type> {
    values.map_values(|v: TypeContent<Img>| v.type_of())
}

/// A call of a transformation in progress: the inputs fed so far, checked
/// against the transformation's input types.
pub struct TransformationCaller<'a, Img> {
    expected_input_types: &'a Vec<Type>,
    input: Vec<TypeContent<Img>>,
}

impl<'a, Img> TransformationCaller<'a, Img> {
    /// The input types that the transformation declares.
    pub closed spec fn expected(&self) -> Seq<Type> {
        self.expected_input_types@
    }

    /// The inputs fed so far, in the order in which they came.
    pub closed spec fn fed(&self) -> Seq<TypeContent<Img>> {
        self.input@
    }

    /// No more inputs were fed than there are declared types, and the kind
    /// of each fed input is the declared type at its position.
    pub open spec fn wf(&self) -> bool {
        &&& self.fed().len() <= self.expected().len()
        &&& forall|i: int|
            0 <= i < self.fed().len() ==> #[trigger] self.fed()[i].type_of() == self.expected()[i]
    }

    /// The type that the next input must have, if one is still expected.
    pub fn next_expected_type(&self) -> (t: Option<Type>)
        requires
            self.wf(),
        ensures
            self.fed().len() < self.expected().len() ==> t == Some(self.expected()[self.fed().len() as int]),
            self.fed().len() == self.expected().len() ==> t is None,
    {
        let n = self.input.len();
        if n < self.expected_input_types.len() {
            Some(self.expected_input_types[n])
        } else {
            None
        }
    }

    /// Feeds the next input. It must be of the next expected type.
    pub fn feed(&mut self, input: TypeContent<Img>)
        requires
            old(self).wf(),
            old(self).fed().len() < old(self).expected().len(),
            input.type_of() == old(self).expected()[old(self).fed().len() as int],
        ensures
            final(self).wf(),
            final(self).expected() == old(self).expected(),
            final(self).fed() == old(self).fed().push(input),
    {
        let ghost pos = self.input@.len();
        let expected_type = self.expected_input_types[self.input.len()];
        let t = input.get_type();
        proof {
            assert(t == expected_type);
        }
        self.input.push(input);
        assert(self.input@[pos as int].type_of() == self.expected()[pos as int]);
    }

    /// Calls the transformation once every declared input has been fed. No
    /// computation is attached to a transformation yet, so its result holds
    /// no value.
    pub fn call(&mut self) -> (res: TransformationResult<Img>)
        requires
            old(self).wf(),
            old(self).fed().len() == old(self).expected().len(),
        ensures
            final(self).expected() == old(self).expected(),
            final(self).fed() == old(self).fed(),
            res.remaining() == Seq::<TypeContent<Img>>::empty(),
    {
        TransformationResult { output: VecDeque::new() }
    }
}

impl Transformation {
    /// Starts a call of this transformation, with no input fed yet.
    pub fn start<Img>(&self) -> (caller: TransformationCaller<'_, Img>)
        ensures
            caller.wf(),
            caller.expected() == self.input@,
            caller.fed() == Seq::<TypeContent<Img>>::empty(),
    {
        TransformationCaller { expected_input_types: &self.input, input: Vec::new() }
    }
}

/// The values that a call gave, handed out one at a time in order.
pub struct TransformationResult<Img> {
    output: VecDeque<TypeContent<Img>>,
}

impl<Img> TransformationResult<Img> {
    /// The values not yet handed out, in order.
    pub closed spec fn remaining(&self) -> Seq<TypeContent<Img>> {
        self.output@
    }

    /// Hands out the next value, or `None` once all have been handed out.
    pub fn next_result(&mut self) -> (r: Option<TypeContent<Img>>)
        ensures
            old(self).remaining().len() == 0 ==> r is None && final(self).remaining() == old(self).remaining(),
            old(self).remaining().len() > 0 ==> r == Some(old(self).remaining()[0])
                && final(self).remaining() == old(self).remaining().drop_first(),
    {
        self.output.pop_front()
    }
}

/// Once every declared input has been fed, the kinds of the inputs are
/// exactly the transformation's input types, in order.
pub proof fn lemma_fed_inputs_match_signature<'a, Img>(caller: TransformationCaller<'a, Img>)
    requires
        caller.wf(),
        caller.fed().len() == caller.expected().len(),
    ensures
        types_of(caller.fed()) == caller.expected(),
{
    assert(types_of(caller.fed()) =~= caller.expected());
}


/// An integer is of kind `Integer` and an image of kind `Image2d`, whatever
/// they hold.
pub proof fn lemma_kinds_of_contents<Img>(n: u64, img: Img)
    ensures
        TypeContent::<Img>::Integer(n).type_of() == Type::Integer,
        TypeContent::<Img>::Image2d(img).type_of() == Type::Image2d,
{
}

} // verus!
