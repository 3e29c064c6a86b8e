use vstd::prelude::*;

verus! {

pub enum Msg {
    /// The window has another size.
    Resize,
}

/// What is drawn for a graph: an empty canvas under this id.
pub struct GraphView {
    pub id: String,
}

/// A canvas that is told when the window is resized.
pub struct Graph {
    id: String,
}

impl Graph {
    pub closed spec fn id(&self) -> Seq<char> {
        self.id@
    }

    pub fn new(id: &str) -> (graph: Self)
        ensures
            graph.id() == id@,
    {
        Graph { id: id.to_owned() }
    }

    /// Nothing is drawn on the canvas yet.
    pub fn redraw() {
    }

    /// A resize changes nothing yet.
    pub fn update(msg: Msg) {
        match msg {
            Msg::Resize => {},
        }
    }

    pub fn view(&self) -> (view: GraphView)
        ensures
            view.id@ == self.id(),
    {
        GraphView { id: self.id.clone() }
    }
}

} // verus!
