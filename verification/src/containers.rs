use vstd::prelude::*;

verus! {

/// An image reference as the backend daemon reports it.
pub struct Image {
    pub name: String,
}

/// A lifecycle state as the backend daemon reports it.
pub struct State {
    pub status: String,
}

/// A transient copy of one container record owned by the remote daemon. The
/// identifier is stable and unique; the display name is not guaranteed
/// unique, so every operation keys containers by id. The optional sub-fields
/// can be absent in a malformed record.
pub struct Container {
    pub id: String,
    pub name: String,
    pub image: Option<Image>,
    pub state: Option<State>,
}

/// One container record as the contracts see it.
#[verifier::ext_equal]
pub struct ContainerV {
    pub id: Seq<char>,
    pub name: Seq<char>,
    pub image: Option<Seq<char>>,
    pub state: Option<Seq<char>>,
}

impl View for Container {
    type V = ContainerV;

    open spec fn view(&self) -> ContainerV {
        ContainerV {
            id: self.id@,
            name: self.name@,
            image: match self.image {
                Option::Some(ref img) => Option::Some(img.name@),
                Option::None => Option::None,
            },
            state: match self.state {
                Option::Some(ref st) => Option::Some(st.status@),
                Option::None => Option::None,
            },
        }
    }
}

/// The records of a listing, as the contracts see them.
pub open spec fn container_views(s: Seq<Container>) -> Seq<ContainerV> {
    s.map_values(|c: Container| c@)
}

} // verus!
