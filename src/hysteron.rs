use vstd::prelude::*;

verus! {

/// The mathematical state of a hysteron.
///
/// `beta` is the reference level (the last accepted high-water value) and
/// `alpha`, when present, the lower cutoff below which a decrease is taken
/// as a genuine new low.
pub ghost struct HysteronView {
    pub offset: int,
    pub beta: int,
    pub alpha: Option<int>,
}

impl HysteronView {
    /// The state of a freshly built hysteron with the given lag width.
    pub open spec fn initial(offset: int) -> HysteronView {
        HysteronView { offset, beta: 0, alpha: None }
    }

    /// The offset is non-negative, and an active cutoff lies exactly
    /// `offset` below the reference level.
    pub open spec fn wf(self) -> bool {
        &&& self.offset >= 0
        &&& (self.alpha matches Some(a) ==> a == self.beta - self.offset)
    }

    /// One observation of `temp`: the next state and the output, decided by
    /// the first of these that applies.
    ///
    /// - `temp` equals the reference: nothing changes, the output is `temp`.
    /// - `temp` rises above the reference: it becomes the reference, the
    ///   cutoff is set `offset` below it, the output is `temp`.
    /// - `temp` falls while no cutoff is active: it becomes the reference,
    ///   the output is `temp`.
    /// - `temp` falls to or below the active cutoff: it becomes the
    ///   reference, the cutoff is dropped, the output is `temp`.
    /// - `temp` falls but stays above the cutoff: nothing changes, the output
    ///   is held at the reference.
    pub open spec fn next(self, temp: int) -> (HysteronView, int) {
        if temp == self.beta {
            (self, temp)
        } else if temp > self.beta {
            (HysteronView { beta: temp, alpha: Some(temp - self.offset), ..self }, temp)
        } else {
            match self.alpha {
                None => (HysteronView { beta: temp, ..self }, temp),
                Some(a) => if temp <= a {
                    (HysteronView { beta: temp, alpha: None, ..self }, temp)
                } else {
                    (self, self.beta)
                },
            }
        }
    }

    /// The outputs produced by feeding `temps` in order, starting here.
    pub open spec fn outputs(self, temps: Seq<int>) -> Seq<int>
        decreases temps.len(),
    {
        if temps.len() == 0 {
            Seq::empty()
        } else {
            let (s, out) = self.next(temps[0]);
            seq![out] + s.outputs(temps.drop_first())
        }
    }
}

/// A hysteron with a fixed lag width, fed one temperature sample at a time.
#[derive(Debug)]
pub struct TemperatureHysteron {
    offset: i32,
    // Kept in a wider type: `beta - offset` need not fit in an `i32`.
    alpha: Option<i64>,
    beta: i32,
}

impl View for TemperatureHysteron {
    type V = HysteronView;

    closed spec fn view(&self) -> HysteronView {
        HysteronView {
            offset: self.offset as int,
            beta: self.beta as int,
            alpha: match self.alpha {
                Some(a) => Some(a as int),
                None => None,
            },
        }
    }
}

impl TemperatureHysteron {
    /// Builds a hysteron whose lag window is `degrees` wide.
    ///
    /// Fails exactly when `degrees` is negative.
    pub fn with_offset(degrees: i32) -> (r: Result<Self, String>)
        ensures
            r is Ok <==> degrees >= 0,
            r matches Ok(h) ==> h@ == HysteronView::initial(degrees as int) && h@.wf(),
            r matches Err(e) ==> e@ == "Degree offset must be non-negative."@,
    {
        if degrees < 0 {
            return Err("Degree offset must be non-negative.".to_owned());
        }
        Ok(TemperatureHysteron { offset: degrees, beta: 0, alpha: None })
    }

    /// The width of the lag window.
    pub fn offset(&self) -> (r: i32)
        ensures
            r as int == self@.offset,
    {
        self.offset
    }

    /// The current reference level.
    pub fn beta(&self) -> (r: i32)
        ensures
            r as int == self@.beta,
    {
        self.beta
    }

    /// The active lower cutoff, if any.
    pub fn alpha(&self) -> (r: Option<i64>)
        ensures
            r matches Some(a) ==> self@.alpha == Some(a as int),
            r is None ==> self@.alpha is None,
    {
        self.alpha
    }

    /// Observes `temp`, updates the state and returns the effective value.
    pub fn get_temp(&mut self, temp: i32) -> (r: i32)
        requires
            old(self)@.wf(),
        ensures
            (final(self)@, r as int) == old(self)@.next(temp as int),
            final(self)@.wf(),
    {
        if temp == self.beta {
            // Repeating the reference changes nothing, and in particular
            // does not lower it again below an old cutoff.
            temp
        } else if temp > self.beta {
            // Rises are never damped.
            self.beta = temp;
            self.alpha = Some(temp as i64 - self.offset as i64);
            temp
        } else {
            match self.alpha {
                None => {
                    // No window is active: a continued fall is tracked.
                    self.beta = temp;
                    temp
                },
                Some(a) => {
                    if temp as i64 <= a {
                        self.beta = temp;
                        self.alpha = None;
                        temp
                    } else {
                        // Within the lag window: hold the reference.
                        self.beta
                    }
                },
            }
        }
    }
}

} // verus!
