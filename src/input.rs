use vstd::prelude::*;

verus! {

/// A short list of key or button codes, held in a `smallvec::SmallVec` with
/// room for 32 inline.
#[verifier::external_body]
pub struct CodeList {
    inner: smallvec::SmallVec<[u64; 32]>,
}

/// The codes a [`CodeList`] holds, in order.
pub uninterp spec fn code_list_items(l: CodeList) -> Seq<u64>;

/// Whether `x` is kept when `code` is removed.
fn kept(x: &u64, code: u64) -> (r: bool)
    ensures
        r == (*x != code),
{
    *x != code
}

/// The codes other than `code`, in order.
pub open spec fn without(items: Seq<u64>, code: u64) -> Seq<u64> {
    items.filter(|x: u64| x != code)
}

impl CodeList {
    /// Relies on `SmallVec::new`: the list starts empty.
    #[verifier::external_body]
    pub(crate) fn new() -> (r: CodeList)
        ensures
            code_list_items(r) == Seq::<u64>::empty(),
    {
        CodeList { inner: smallvec::SmallVec::new() }
    }

    /// Relies on `SmallVec`'s slice `contains`: whether `code` is in the list.
    #[verifier::external_body]
    pub(crate) fn contains(&self, code: u64) -> (r: bool)
        ensures
            r == code_list_items(*self).contains(code),
    {
        self.inner.contains(&code)
    }

    /// Relies on `SmallVec::push`: `code` goes at the end.
    #[verifier::external_body]
    pub(crate) fn push(&mut self, code: u64)
        ensures
            code_list_items(*final(self)) == code_list_items(*old(self)).push(code),
    {
        self.inner.push(code)
    }

    /// Relies on `SmallVec::retain`, which keeps, in order, the items the
    /// predicate accepts: every `code` goes.
    #[verifier::external_body]
    pub(crate) fn remove_all(&mut self, code: u64)
        ensures
            code_list_items(*final(self)) == without(code_list_items(*old(self)), code),
    {
        self.inner.retain(|x: &mut u64| kept(x, code))
    }

    /// Relies on `SmallVec::clear`: the list is emptied.
    #[verifier::external_body]
    pub(crate) fn clear(&mut self)
        ensures
            code_list_items(*final(self)) == Seq::<u64>::empty(),
    {
        self.inner.clear()
    }
}

/// Which keys and mouse buttons are held, and which changed since the frame
/// began. Keys and buttons are named by `u64` codes.
pub struct InputState {
    pressed: CodeList,
    just_pressed: CodeList,
    just_released: CodeList,
    mouse_pressed: CodeList,
    mouse_just_pressed: CodeList,
    mouse_just_released: CodeList,
}

/// The held and changed codes of one kind of input.
pub ghost struct ButtonsModel {
    pub held: Seq<u64>,
    pub pressed_now: Seq<u64>,
    pub released_now: Seq<u64>,
}

pub ghost struct InputModel {
    pub keys: ButtonsModel,
    pub mouse: ButtonsModel,
}

impl View for InputState {
    type V = InputModel;

    closed spec fn view(&self) -> InputModel {
        InputModel {
            keys: ButtonsModel {
                held: code_list_items(self.pressed),
                pressed_now: code_list_items(self.just_pressed),
                released_now: code_list_items(self.just_released),
            },
            mouse: ButtonsModel {
                held: code_list_items(self.mouse_pressed),
                pressed_now: code_list_items(self.mouse_just_pressed),
                released_now: code_list_items(self.mouse_just_released),
            },
        }
    }
}

/// The buttons after `code` went down (`down`) or up: a press of a button not
/// held holds it and counts as a fresh press; a release of a held button lets
/// it go and counts as a fresh release; anything else changes nothing.
pub open spec fn button_set(b: ButtonsModel, code: u64, down: bool) -> ButtonsModel {
    if down && !b.held.contains(code) {
        ButtonsModel { held: b.held.push(code), pressed_now: b.pressed_now.push(code), ..b }
    } else if !down && b.held.contains(code) {
        ButtonsModel {
            held: without(b.held, code),
            released_now: b.released_now.push(code),
            ..b
        }
    } else {
        b
    }
}

/// The buttons at the start of a frame: still held, nothing fresh.
pub open spec fn buttons_cleared(b: ButtonsModel) -> ButtonsModel {
    ButtonsModel { pressed_now: Seq::empty(), released_now: Seq::empty(), ..b }
}

fn set_button(held: &mut CodeList, pressed_now: &mut CodeList, released_now: &mut CodeList, code: u64, down: bool)
    ensures
        button_set(
            ButtonsModel {
                held: code_list_items(*old(held)),
                pressed_now: code_list_items(*old(pressed_now)),
                released_now: code_list_items(*old(released_now)),
            },
            code,
            down,
        ) == (ButtonsModel {
            held: code_list_items(*final(held)),
            pressed_now: code_list_items(*final(pressed_now)),
            released_now: code_list_items(*final(released_now)),
        }),
{
    let is_held = held.contains(code);
    if down && !is_held {
        held.push(code);
        pressed_now.push(code);
    } else if !down && is_held {
        held.remove_all(code);
        released_now.push(code);
    }
}

impl InputState {
    /// Nothing held, nothing fresh.
    pub fn new() -> (r: InputState)
        ensures
            r@.keys == (ButtonsModel { held: Seq::empty(), pressed_now: Seq::empty(), released_now: Seq::empty() }),
            r@.mouse == (ButtonsModel { held: Seq::empty(), pressed_now: Seq::empty(), released_now: Seq::empty() }),
    {
        InputState {
            pressed: CodeList::new(),
            just_pressed: CodeList::new(),
            just_released: CodeList::new(),
            mouse_pressed: CodeList::new(),
            mouse_just_pressed: CodeList::new(),
            mouse_just_released: CodeList::new(),
        }
    }

    /// Whether key `k` is held.
    pub fn key_pressed(&self, k: u64) -> (r: bool)
        ensures
            r == self@.keys.held.contains(k),
    {
        self.pressed.contains(k)
    }

    /// Whether key `k` went down since the frame began.
    pub fn just_pressed(&self, k: u64) -> (r: bool)
        ensures
            r == self@.keys.pressed_now.contains(k),
    {
        self.just_pressed.contains(k)
    }

    /// Whether key `k` went up since the frame began.
    pub fn just_released(&self, k: u64) -> (r: bool)
        ensures
            r == self@.keys.released_now.contains(k),
    {
        self.just_released.contains(k)
    }

    /// Whether mouse button `b` is held.
    pub fn mouse_pressed(&self, b: u64) -> (r: bool)
        ensures
            r == self@.mouse.held.contains(b),
    {
        self.mouse_pressed.contains(b)
    }

    /// Whether mouse button `b` went down since the frame began.
    pub fn mouse_just_pressed(&self, b: u64) -> (r: bool)
        ensures
            r == self@.mouse.pressed_now.contains(b),
    {
        self.mouse_just_pressed.contains(b)
    }

    /// Whether mouse button `b` went up since the frame began.
    pub fn mouse_just_released(&self, b: u64) -> (r: bool)
        ensures
            r == self@.mouse.released_now.contains(b),
    {
        self.mouse_just_released.contains(b)
    }

    /// Forgets what changed in the last frame; what is held stays held.
    pub fn begin_frame(&mut self)
        ensures
            final(self)@.keys == buttons_cleared(old(self)@.keys),
            final(self)@.mouse == buttons_cleared(old(self)@.mouse),
    {
        self.just_pressed.clear();
        self.just_released.clear();
        self.mouse_just_pressed.clear();
        self.mouse_just_released.clear();
    }

    /// Key `k` went down (`down`) or up.
    pub fn set_key_down(&mut self, k: u64, down: bool)
        ensures
            final(self)@.keys == button_set(old(self)@.keys, k, down),
            final(self)@.mouse == old(self)@.mouse,
    {
        set_button(&mut self.pressed, &mut self.just_pressed, &mut self.just_released, k, down);
    }

    /// Mouse button `b` went down (`down`) or up.
    pub fn set_mouse_btn(&mut self, b: u64, down: bool)
        ensures
            final(self)@.mouse == button_set(old(self)@.mouse, b, down),
            final(self)@.keys == old(self)@.keys,
    {
        set_button(
            &mut self.mouse_pressed,
            &mut self.mouse_just_pressed,
            &mut self.mouse_just_released,
            b,
            down,
        );
    }
}

/// A key that went down is held and freshly pressed; once it goes up it is no
/// longer held and is freshly released.
pub proof fn lemma_press_release(b: ButtonsModel, code: u64)
    requires
        !b.held.contains(code),
    ensures
        button_set(b, code, true).held.contains(code),
        button_set(b, code, true).pressed_now.contains(code),
        !button_set(button_set(b, code, true), code, false).held.contains(code),
        button_set(button_set(b, code, true), code, false).released_now.contains(code),
{
    let b1 = button_set(b, code, true);
    assert(b1.held.last() == code);
    assert(b1.pressed_now.last() == code);
    let b2 = button_set(b1, code, false);
    assert(b2.released_now.last() == code);
    assert(!without(b1.held, code).contains(code));
}

} // verus!
