//! References to the values a platform measures: an element or its window.

use vstd::prelude::*;

verus! {

/// A borrowed element or window, as handed to platform hooks that may
/// resolve either.
#[derive(Debug)]
pub enum ElementOrWindow<'a, Element, Window> {
    Element(&'a Element),
    Window(&'a Window),
}

/// An owned element or window, as returned by platform hooks that may
/// resolve either.
#[derive(Debug)]
pub enum OwnedElementOrWindow<Element, Window> {
    Element(Element),
    Window(Window),
}

impl<Element, Window> OwnedElementOrWindow<Element, Window> {
    /// Borrows the held element or window.
    pub fn borrowed(&self) -> (r: ElementOrWindow<'_, Element, Window>)
        ensures
            match (self, r) {
                (OwnedElementOrWindow::Element(o), ElementOrWindow::Element(b)) => o == b,
                (OwnedElementOrWindow::Window(o), ElementOrWindow::Window(b)) => o == b,
                _ => false,
            },
    {
        match self {
            OwnedElementOrWindow::Element(element) => ElementOrWindow::Element(element),
            OwnedElementOrWindow::Window(window) => ElementOrWindow::Window(window),
        }
    }
}

} // verus!
