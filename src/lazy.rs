use vstd::prelude::*;

verus! {

/// A slot that can be filled once and is never emptied again.
pub struct OnceCell<T> {
    inner: Option<T>,
}

impl<T> View for OnceCell<T> {
    type V = Option<T>;

    closed spec fn view(&self) -> Option<T> {
        self.inner
    }
}

impl<T> OnceCell<T> {
    #[must_use]
    pub fn new() -> (r: Self)
        ensures
            r@ == None::<T>,
    {
        OnceCell { inner: None }
    }

    pub fn is_set(&self) -> (r: bool)
        ensures
            r == self@.is_some(),
    {
        self.inner.is_some()
    }

    pub fn get(&self) -> (r: Option<&T>)
        ensures
            r.is_some() == self@.is_some(),
            r.is_some() ==> *r.unwrap() == self@.unwrap(),
    {
        match &self.inner {
            Some(v) => Some(v),
            None => None,
        }
    }

    pub fn get_mut(&mut self) -> (r: Option<&mut T>)
        ensures
            r.is_some() == old(self)@.is_some(),
            r.is_none() ==> final(self)@ == old(self)@,
            r.is_some() ==> *r.unwrap() == old(self)@.unwrap(),
            r.is_some() ==> final(self)@ == Some(*final(r.unwrap())),
    {
        match &mut self.inner {
            Some(v) => Some(v),
            None => None,
        }
    }

    /// Fills an empty cell; a filled cell is left as it is and `value`
    /// comes back in the error.
    pub fn set(&mut self, value: T) -> (r: Result<(), T>)
        ensures
            old(self)@.is_none() ==> r is Ok && final(self)@ == Some(value),
            old(self)@.is_some() ==> r == Err::<(), T>(value) && final(self)@ == old(self)@,
    {
        if self.inner.is_some() {
            return Err(value);
        }
        self.inner = Some(value);
        Ok(())
    }
}

impl<T> Default for OnceCell<T> {
    fn default() -> (r: Self)
        ensures
            r@ == None::<T>,
    {
        OnceCell::new()
    }
}

} // verus!
