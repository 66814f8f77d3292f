use crate::core_constants::{ComponentType, VisibilityMode};
use crate::ids::IdFountain;
use std::collections::HashMap;
use vstd::prelude::*;
use vstd::std_specs::hash::spec_keys_iter;
use vstd::std_specs::iter::IteratorSpec;

verus! {

/// Owner value of a component that belongs to the game rather than to a player.
pub const NO_OWNER: i32 = -1;

/// What every component carries, as plain values.
pub struct ComponentHeader {
    pub id: usize,
    pub kind: ComponentType,
    pub owner: i32,
    pub name: Seq<char>,
}

/// A component as a mathematical value: a token, or an area with the models
/// of the components it holds, keyed by id.
pub enum ComponentModel {
    Token { header: ComponentHeader, token_type: Seq<char> },
    Area { header: ComponentHeader, children: Map<usize, ComponentModel> },
}

impl ComponentModel {
    pub open spec fn header(self) -> ComponentHeader {
        match self {
            ComponentModel::Token { header, .. } => header,
            ComponentModel::Area { header, .. } => header,
        }
    }

    pub open spec fn id(self) -> usize {
        self.header().id
    }

    /// The components held directly in this one's lookup map (none for a token).
    pub open spec fn children(self) -> Map<usize, ComponentModel> {
        match self {
            ComponentModel::Token { .. } => Map::empty(),
            ComponentModel::Area { children, .. } => children,
        }
    }
}

/// The data shared by every kind of component.
#[derive(Debug)]
pub struct BaseComponent {
    component_id: usize,
    component_type: ComponentType,
    owner_id: i32,
    component_name: String,
}

impl View for BaseComponent {
    type V = ComponentHeader;

    closed spec fn view(&self) -> ComponentHeader {
        ComponentHeader {
            id: self.component_id,
            kind: self.component_type,
            owner: self.owner_id,
            name: self.component_name@,
        }
    }
}

impl Clone for BaseComponent {
    fn clone(&self) -> (r: Self)
        ensures
            r@ == self@,
    {
        BaseComponent {
            component_id: self.component_id,
            component_type: self.component_type,
            owner_id: self.owner_id,
            component_name: self.component_name.clone(),
        }
    }
}

impl BaseComponent {
    /// A component of the given kind with a fresh id, named after its kind.
    pub fn new(ids: &mut IdFountain, component_type: ComponentType) -> (r: Self)
        requires
            old(ids).can_draw(),
        ensures
            r@ == (ComponentHeader {
                id: old(ids)@ as usize,
                kind: component_type,
                owner: NO_OWNER,
                name: component_type.name_spec(),
            }),
            final(ids)@ == old(ids)@ + 1,
    {
        let id = ids.next_id();
        BaseComponent {
            component_id: id as usize,
            component_type,
            owner_id: NO_OWNER,
            component_name: component_type.name(),
        }
    }

    /// A component of the given kind and name with a fresh id.
    pub fn new_with_name(ids: &mut IdFountain, component_type: ComponentType, name: &str) -> (r:
        Self)
        requires
            old(ids).can_draw(),
        ensures
            r@ == (ComponentHeader {
                id: old(ids)@ as usize,
                kind: component_type,
                owner: NO_OWNER,
                name: name@,
            }),
            final(ids)@ == old(ids)@ + 1,
    {
        let id = ids.next_id();
        BaseComponent {
            component_id: id as usize,
            component_type,
            owner_id: NO_OWNER,
            component_name: name.to_string(),
        }
    }

    /// A component of the given kind and name with an id chosen by the caller.
    pub fn new_with_name_and_id(component_type: ComponentType, name: &str, component_id: usize) -> (r:
        Self)
        ensures
            r@ == (ComponentHeader {
                id: component_id,
                kind: component_type,
                owner: NO_OWNER,
                name: name@,
            }),
    {
        BaseComponent {
            component_id,
            component_type,
            owner_id: NO_OWNER,
            component_name: name.to_string(),
        }
    }

    /// A component of the given kind with an id chosen by the caller, named after its kind.
    pub fn new_with_id(component_type: ComponentType, component_id: usize) -> (r: Self)
        ensures
            r@ == (ComponentHeader {
                id: component_id,
                kind: component_type,
                owner: NO_OWNER,
                name: component_type.name_spec(),
            }),
    {
        BaseComponent {
            component_id,
            component_type,
            owner_id: NO_OWNER,
            component_name: component_type.name(),
        }
    }

    pub fn component_id(&self) -> (r: usize)
        ensures
            r == self@.id,
    {
        self.component_id
    }

    pub fn component_type(&self) -> (r: ComponentType)
        ensures
            r == self@.kind,
    {
        self.component_type
    }

    pub fn owner_id(&self) -> (r: i32)
        ensures
            r == self@.owner,
    {
        self.owner_id
    }

    pub fn set_owner_id(&mut self, owner_id: i32)
        ensures
            final(self)@ == (ComponentHeader { owner: owner_id, ..old(self)@ }),
    {
        self.owner_id = owner_id;
    }

    pub fn component_name(&self) -> (r: &str)
        ensures
            r@ == self@.name,
    {
        self.component_name.as_str()
    }

    pub fn set_component_name(&mut self, name: String)
        ensures
            final(self)@ == (ComponentHeader { name: name@, ..old(self)@ }),
    {
        self.component_name = name;
    }
}

/// Components are the same exactly when their ids are.
impl PartialEq for BaseComponent {
    fn eq(&self, other: &BaseComponent) -> (r: bool) {
        self.component_id == other.component_id
    }
}

impl vstd::std_specs::cmp::PartialEqSpecImpl for BaseComponent {
    open spec fn obeys_eq_spec() -> bool {
        true
    }

    open spec fn eq_spec(&self, other: &BaseComponent) -> bool {
        self@.id == other@.id
    }
}

impl Eq for BaseComponent {

}

/// A leaf piece with a semantic type string.
#[derive(Debug)]
pub struct Token {
    base: BaseComponent,
    token_type: String,
}

/// A keyed container of components.
#[derive(Debug)]
pub struct Area {
    base: BaseComponent,
    components: HashMap<usize, Component>,
}

/// A component of either kind.
#[derive(Debug)]
pub enum Component {
    Token(Token),
    Area(Area),
}

/// The model of a component; an area's children are modelled in turn.
pub closed spec fn model_of(c: Component) -> ComponentModel
    decreases c,
{
    match c {
        Component::Token(t) => ComponentModel::Token { header: t.base@, token_type: t.token_type@ },
        Component::Area(a) => ComponentModel::Area {
            header: a.base@,
            children: Map::new(
                |k: usize| a.components@.contains_key(k),
                |k: usize|
                    if a.components@.contains_key(k) {
                        model_of(a.components@[k])
                    } else {
                        ComponentModel::Token { header: a.base@, token_type: Seq::empty() }
                    },
            ),
        },
    }
}

/// The models of the components in a lookup map.
pub open spec fn models(m: Map<usize, Component>) -> Map<usize, ComponentModel> {
    Map::new(|k: usize| m.contains_key(k), |k: usize| model_of(m[k]))
}

/// The lookup map of an area after `c` is put into it: `c`'s own lookup map is
/// merged in, then `c` itself is stored under its id.
pub open spec fn put_spec(children: Map<usize, ComponentModel>, c: ComponentModel) -> Map<
    usize,
    ComponentModel,
> {
    children.union_prefer_right(c.children()).insert(c.id(), c)
}

/// The lookup map after each of `cs` is put in turn, first to last.
pub open spec fn put_all_spec(children: Map<usize, ComponentModel>, cs: Seq<ComponentModel>) -> Map<
    usize,
    ComponentModel,
>
    decreases cs.len(),
{
    if cs.len() == 0 {
        children
    } else {
        put_spec(put_all_spec(children, cs.drop_last()), cs.last())
    }
}

impl View for Component {
    type V = ComponentModel;

    open spec fn view(&self) -> ComponentModel {
        model_of(*self)
    }
}

impl View for Token {
    type V = ComponentModel;

    open spec fn view(&self) -> ComponentModel {
        model_of(Component::Token(*self))
    }
}

impl View for Area {
    type V = ComponentModel;

    open spec fn view(&self) -> ComponentModel {
        model_of(Component::Area(*self))
    }
}

proof fn lemma_area_children(a: Area)
    ensures
        a@.children() == models(a.components@),
        a@.header() == a.base@,
        a@ is Area,
{
    assert(a@.children() =~= models(a.components@));
}

/// A copy of a component, nested areas included.
fn copy_component(c: &Component) -> (r: Component)
    ensures
        r@ == c@,
    decreases c,
{
    match c {
        Component::Token(t) => Component::Token(
            Token { base: t.base.clone(), token_type: t.token_type.clone() },
        ),
        Component::Area(a) => {
            proof {
                use_type_invariant(a);
                lemma_area_children(*a);
            }
            let base = a.base.clone();
            let components = copy_map(&a.components);
            proof {
                lemma_area_children(Area { base, components });
            }
            Component::Area(Area { base, components })
        },
    }
}

/// A copy of a lookup map, each component copied in turn.
fn copy_map(m: &HashMap<usize, Component>) -> (r: HashMap<usize, Component>)
    ensures
        models(r@) == models(m@),
    decreases m,
{
    let mut r: HashMap<usize, Component> = HashMap::new();
    for k in it: m.keys()
        invariant
            it.seq() == spec_keys_iter(m).remaining(),
            forall|x: usize| #[trigger]
                r@.contains_key(x) <==> exists|j: int| 0 <= j < it.index() && *it.seq()[j] == x,
            forall|x: usize| #[trigger]
                r@.contains_key(x) ==> m@.contains_key(x) && model_of(r@[x]) == model_of(m@[x]),
    {
        assert(spec_keys_iter(m).remaining().unref().to_set().contains(*k));
        let child = m.get(k).unwrap();
        proof {
            assert(decreases_to!(*m => m@));
            assert(decreases_to!(m@ => m@[*k]));
        }
        let copy = copy_component(child);
        r.insert(*k, copy);
    }
    assert(models(r@) =~= models(m@));
    r
}

impl Clone for Token {
    fn clone(&self) -> (r: Self)
        ensures
            r@ == self@,
    {
        Token { base: self.base.clone(), token_type: self.token_type.clone() }
    }
}

impl Clone for Area {
    fn clone(&self) -> (r: Self)
        ensures
            r@ == self@,
    {
        proof {
            use_type_invariant(self);
            lemma_area_children(*self);
        }
        let base = self.base.clone();
        let components = copy_map(&self.components);
        proof {
            lemma_area_children(Area { base, components });
        }
        Area { base, components }
    }
}

impl Clone for Component {
    fn clone(&self) -> (r: Self)
        ensures
            r@ == self@,
    {
        copy_component(self)
    }
}

impl Token {
    pub open spec fn token_type_spec(m: ComponentModel) -> Seq<char> {
        match m {
            ComponentModel::Token { token_type, .. } => token_type,
            ComponentModel::Area { .. } => Seq::empty(),
        }
    }

    /// A token of the given type with a fresh id; the type is also its name.
    pub fn new(ids: &mut IdFountain, token_type: &str) -> (r: Self)
        requires
            old(ids).can_draw(),
        ensures
            r@ == (ComponentModel::Token {
                header: ComponentHeader {
                    id: old(ids)@ as usize,
                    kind: ComponentType::Token,
                    owner: NO_OWNER,
                    name: token_type@,
                },
                token_type: token_type@,
            }),
            final(ids)@ == old(ids)@ + 1,
    {
        Token {
            token_type: token_type.to_string(),
            base: BaseComponent::new_with_name(ids, ComponentType::Token, token_type),
        }
    }

    /// A token of the given type with an id chosen by the caller.
    pub fn new_with_id(token_type: &str, id: usize) -> (r: Self)
        ensures
            r@ == (ComponentModel::Token {
                header: ComponentHeader {
                    id,
                    kind: ComponentType::Token,
                    owner: NO_OWNER,
                    name: token_type@,
                },
                token_type: token_type@,
            }),
    {
        Token {
            token_type: token_type.to_string(),
            base: BaseComponent::new_with_name_and_id(ComponentType::Token, token_type, id),
        }
    }

    pub fn token_type(&self) -> (r: &str)
        ensures
            r@ == Token::token_type_spec(self@),
    {
        self.token_type.as_str()
    }

    pub fn component_id(&self) -> (r: usize)
        ensures
            r == self@.id(),
    {
        self.base.component_id()
    }

    pub fn base(&self) -> (r: &BaseComponent)
        ensures
            r@ == self@.header(),
    {
        &self.base
    }
}

/// Tokens are the same when their ids and their types are.
impl PartialEq for Token {
    fn eq(&self, other: &Token) -> (r: bool) {
        self.base == other.base && self.token_type == other.token_type
    }
}

impl vstd::std_specs::cmp::PartialEqSpecImpl for Token {
    open spec fn obeys_eq_spec() -> bool {
        true
    }

    open spec fn eq_spec(&self, other: &Token) -> bool {
        self@.id() == other@.id() && Token::token_type_spec(self@) == Token::token_type_spec(
            other@,
        )
    }
}

impl Eq for Token {

}

/// `ks` lists each key of `m` exactly once.
pub open spec fn enumerates_keys<V>(ks: Seq<usize>, m: Map<usize, V>) -> bool {
    ks.no_duplicates() && ks.to_set() == m.dom()
}

/// `cs` holds the components of `m`, one for each key, in some order.
pub open spec fn lists_values(cs: Seq<Component>, m: Map<usize, ComponentModel>) -> bool {
    exists|ks: Seq<usize>|
        #![trigger enumerates_keys(ks, m)]
        enumerates_keys(ks, m) && ks.len() == cs.len() && forall|i: int|
            0 <= i < cs.len() ==> (#[trigger] cs[i])@ == m[ks[i]]
}

/// Puts a copy of each component of `from` into `target`, under the same key.
fn absorb(target: &mut HashMap<usize, Component>, from: &HashMap<usize, Component>)
    ensures
        models(final(target)@) == models(old(target)@).union_prefer_right(models(from@)),
{
    let ghost start = models(target@);
    for k in it: from.keys()
        invariant
            it.seq() == spec_keys_iter(from).remaining(),
            forall|x: usize| #[trigger]
                target@.contains_key(x) <==> (start.contains_key(x) || exists|j: int|
                    0 <= j < it.index() && *it.seq()[j] == x),
            forall|x: usize| #[trigger]
                target@.contains_key(x) ==> if exists|j: int|
                    0 <= j < it.index() && *it.seq()[j] == x {
                    from@.contains_key(x) && model_of(target@[x]) == model_of(from@[x])
                } else {
                    model_of(target@[x]) == start[x]
                },
    {
        assert(spec_keys_iter(from).remaining().unref().to_set().contains(*k));
        let copy = copy_component(from.get(k).unwrap());
        target.insert(*k, copy);
    }
    assert(models(target@) =~= start.union_prefer_right(models(from@)));
}

/// The keys of a lookup map, each once.
fn keys_of(m: &HashMap<usize, Component>) -> (r: Vec<usize>)
    ensures
        enumerates_keys(r@, m@),
{
    let mut r: Vec<usize> = Vec::new();
    for k in it: m.keys()
        invariant
            it.seq() == spec_keys_iter(m).remaining(),
            r@ == it.seq().unref().take(it.index()),
    {
        r.push(*k);
        assert(r@ =~= it.seq().unref().take(it.index() + 1));
    }
    assert(r@ =~= spec_keys_iter(m).remaining().unref());
    r
}

/// Copies of the components of a lookup map, one for each key.
fn values_of(m: &HashMap<usize, Component>) -> (r: Vec<Component>)
    ensures
        lists_values(r@, models(m@)),
{
    let keys = keys_of(m);
    let mut r: Vec<Component> = Vec::new();
    let mut i: usize = 0;
    while i < keys.len()
        invariant
            enumerates_keys(keys@, m@),
            i <= keys.len(),
            r.len() == i,
            forall|j: int| 0 <= j < i ==> (#[trigger] r@[j])@ == models(m@)[keys@[j]],
        decreases keys.len() - i,
    {
        assert(keys@.to_set().contains(keys@[i as int]));
        let copy = copy_component(m.get(&keys[i]).unwrap());
        r.push(copy);
        i = i + 1;
    }
    assert(enumerates_keys(keys@, models(m@))) by {
        assert(models(m@).dom() =~= m@.dom());
    }
    r
}

impl Area {
    /// Every area stores each component under that component's own id, and
    /// directly holds everything its own areas hold.
    #[verifier::type_invariant]
    closed spec fn inv(&self) -> bool {
        is_flattened(self@)
    }

    /// An empty area of the given owner with a fresh id.
    pub fn new(ids: &mut IdFountain, owner: i32) -> (r: Self)
        requires
            old(ids).can_draw(),
        ensures
            r@ == (ComponentModel::Area {
                header: ComponentHeader {
                    id: old(ids)@ as usize,
                    kind: ComponentType::Area,
                    owner,
                    name: Seq::empty(),
                },
                children: Map::empty(),
            }),
            final(ids)@ == old(ids)@ + 1,
    {
        let mut base = BaseComponent::new_with_name(ids, ComponentType::Area, "");
        base.set_owner_id(owner);
        let components: HashMap<usize, Component> = HashMap::new();
        proof {
            reveal_strlit("");
            assert(""@ =~= Seq::<char>::empty());
            lemma_area_children(Area { base, components });
            assert(models(components@) =~= Map::empty());
        }
        Area { base, components }
    }

    /// An empty area of the given owner with an id chosen by the caller.
    pub fn new_with_id(owner: i32, id: usize) -> (r: Self)
        ensures
            r@ == (ComponentModel::Area {
                header: ComponentHeader {
                    id,
                    kind: ComponentType::Area,
                    owner,
                    name: Seq::empty(),
                },
                children: Map::empty(),
            }),
    {
        let mut base = BaseComponent::new_with_name_and_id(ComponentType::Area, "", id);
        base.set_owner_id(owner);
        let components: HashMap<usize, Component> = HashMap::new();
        proof {
            reveal_strlit("");
            assert(""@ =~= Seq::<char>::empty());
            lemma_area_children(Area { base, components });
            assert(models(components@) =~= Map::empty());
        }
        Area { base, components }
    }

    /// Empties the lookup map. Areas that were put in keep their own contents.
    pub fn clear(&mut self)
        ensures
            final(self)@ == (ComponentModel::Area {
                header: old(self)@.header(),
                children: Map::empty(),
            }),
    {
        proof {
            lemma_area_children(*self);
        }
        let empty: HashMap<usize, Component> = HashMap::new();
        proof {
            lemma_area_children(Area { base: self.base, components: empty });
            assert(models(empty@) =~= Map::empty());
        }
        self.components = empty;
        proof {
            lemma_area_children(*self);
        }
    }

    /// A copy of the lookup map.
    pub fn components_map(&self) -> (r: HashMap<usize, Component>)
        ensures
            models(r@) == self@.children(),
            r@.dom() == self@.children().dom(),
            forall|k: usize| #[trigger]
                r@.contains_key(k) ==> r@[k]@ == self@.children()[k] && r@[k]@.id() == k,
    {
        proof {
            use_type_invariant(self);
            lemma_area_children(*self);
            assert(models(self.components@).dom() =~= self.components@.dom());
        }
        copy_map(&self.components)
    }

    /// The ids in the lookup map, each once.
    pub fn nested_keys(&self) -> (r: Vec<usize>)
        ensures
            enumerates_keys(r@, self@.children()),
    {
        proof {
            lemma_area_children(*self);
            assert(models(self.components@).dom() =~= self.components@.dom());
        }
        keys_of(&self.components)
    }

    /// The component stored under `key`, if any.
    pub fn get_component(&self, key: usize) -> (r: Option<&Component>)
        ensures
            match r {
                Some(c) => {
                    &&& self@.children().contains_key(key)
                    &&& c@ == self@.children()[key]
                    &&& c@.id() == key
                    &&& is_flattened(c@)
                },
                None => !self@.children().contains_key(key),
            },
    {
        proof {
            use_type_invariant(self);
            lemma_area_children(*self);
        }
        self.components.get(&key)
    }

    /// Stores `c` under its id, after storing every component of `c`'s own
    /// lookup map under its key. Returns what was stored under `c`'s id before
    /// `c` itself went in.
    pub fn put_component(&mut self, c: Component) -> (r: Option<Component>)
        ensures
            final(self)@ == (ComponentModel::Area {
                header: old(self)@.header(),
                children: put_spec(old(self)@.children(), c@),
            }),
            match r {
                Some(p) => old(self)@.children().union_prefer_right(c@.children()).contains_key(
                    c@.id(),
                ) && p@ == old(self)@.children().union_prefer_right(c@.children())[c@.id()],
                None => !old(self)@.children().union_prefer_right(c@.children()).contains_key(
                    c@.id(),
                ),
            },
            is_flattened(c@),
            is_flattened(final(self)@),
    {
        proof {
            use_type_invariant(&*self);
            lemma_area_children(*self);
        }
        let mut map: HashMap<usize, Component> = HashMap::new();
        proof {
            lemma_area_children(Area { base: self.base, components: map });
            assert(models(map@) =~= Map::empty());
        }
        std::mem::swap(&mut self.components, &mut map);
        match &c {
            Component::Area(a) => {
                proof {
                    use_type_invariant(a);
                    lemma_area_children(*a);
                }
                absorb(&mut map, &a.components);
                assert(is_flattened(c@));
            },
            Component::Token(_) => {
                assert(models(map@) =~= models(map@).union_prefer_right(c@.children()));
                assert(is_flattened(c@));
            },
        }
        let ghost mid = map@;
        let id = c.component_id();
        let r = map.insert(id, c);
        proof {
            assert(models(map@) =~= models(mid).insert(c@.id(), c@));
            lemma_put_keeps_flattened(old(self)@, c@);
            lemma_area_children(Area { base: self.base, components: map });
        }
        self.components = map;
        proof {
            lemma_area_children(*self);
        }
        r
    }

    /// Puts each of `components` in turn, first to last.
    pub fn put_components(&mut self, components: Vec<Component>)
        ensures
            final(self)@ == (ComponentModel::Area {
                header: old(self)@.header(),
                children: put_all_spec(
                    old(self)@.children(),
                    components@.map_values(|c: Component| c@),
                ),
            }),
            is_flattened(final(self)@),
    {
        proof {
            use_type_invariant(&*self);
        }
        let ghost all = components@.map_values(|c: Component| c@);
        for c in it: components
            invariant
                all == it.seq().map_values(|c: Component| c@),
                self@ == (ComponentModel::Area {
                    header: old(self)@.header(),
                    children: put_all_spec(old(self)@.children(), all.take(it.index())),
                }),
                is_flattened(self@),
        {
            assert(all.take(it.index() + 1).drop_last() =~= all.take(it.index()));
            self.put_component(c);
        }
        assert(all.take(all.len() as int) =~= all);
    }

    pub fn component_id(&self) -> (r: usize)
        ensures
            r == self@.id(),
    {
        proof {
            lemma_area_children(*self);
        }
        self.base.component_id()
    }

    pub fn base(&self) -> (r: &BaseComponent)
        ensures
            r@ == self@.header(),
    {
        proof {
            lemma_area_children(*self);
        }
        &self.base
    }
}

impl Component {
    pub fn component_id(&self) -> (r: usize)
        ensures
            r == self@.id(),
    {
        match self {
            Component::Token(t) => t.component_id(),
            Component::Area(a) => a.component_id(),
        }
    }

    /// Copies of the components held in this one's lookup map (none for a token).
    pub fn nested_components(&self) -> (r: Vec<Component>)
        ensures
            lists_values(r@, self@.children()),
    {
        match self {
            Component::Token(t) => {
                let r: Vec<Component> = Vec::new();
                assert(enumerates_keys(Seq::<usize>::empty(), self@.children())) by {
                    assert(Seq::<usize>::empty().to_set() =~= self@.children().dom());
                }
                r
            },
            Component::Area(a) => a.get_components(),
        }
    }
}

/// A component that holds other components.
pub trait ComponentContainer {
    /// What the container holds, keyed by id.
    spec fn contents(&self) -> Map<usize, ComponentModel>;

    /// Copies of the held components, one for each key.
    fn get_components(&self) -> (r: Vec<Component>)
        ensures
            lists_values(r@, self.contents()),
    ;

    /// Who may see what the container holds.
    fn get_visibility_mode(&self) -> VisibilityMode;

    /// How many components the container holds.
    fn get_size(&self) -> (r: usize)
        ensures
            r == self.contents().len(),
    ;
}

impl ComponentContainer for Area {
    open spec fn contents(&self) -> Map<usize, ComponentModel> {
        self@.children()
    }

    fn get_components(&self) -> (r: Vec<Component>) {
        proof {
            lemma_area_children(*self);
        }
        values_of(&self.components)
    }

    fn get_visibility_mode(&self) -> (r: VisibilityMode)
        ensures
            r == VisibilityMode::VisibleToAll,
    {
        VisibilityMode::VisibleToAll
    }

    fn get_size(&self) -> (r: usize) {
        proof {
            lemma_area_children(*self);
            assert(models(self.components@).dom() =~= self.components@.dom());
        }
        self.components.len()
    }
}

/// Areas are the same when their ids and the sets of keys they hold are; what
/// is stored under those keys is not compared.
impl PartialEq for Area {
    fn eq(&self, other: &Area) -> (r: bool) {
        proof {
            lemma_area_children(*self);
            lemma_area_children(*other);
            assert(models(self.components@).dom() =~= self.components@.dom());
            assert(models(other.components@).dom() =~= other.components@.dom());
        }
        if self.component_id() != other.component_id() {
            return false;
        }
        if self.components.len() != other.components.len() {
            return false;
        }
        let keys = keys_of(&self.components);
        let mut i: usize = 0;
        while i < keys.len()
            invariant
                enumerates_keys(keys@, self.components@),
                self@.children().dom() == self.components@.dom(),
                other@.children().dom() == other.components@.dom(),
                self@.id() == other@.id(),
                i <= keys.len(),
                forall|j: int| 0 <= j < i ==> other.components@.contains_key(#[trigger] keys@[j]),
            decreases keys.len() - i,
        {
            if !other.components.contains_key(&keys[i]) {
                assert(keys@.to_set().contains(keys@[i as int]));
                return false;
            }
            i = i + 1;
        }
        proof {
            assert(self.components@.dom().subset_of(other.components@.dom())) by {
                assert forall|x: usize| self.components@.contains_key(x) implies other.components@.contains_key(x) by {
                    assert(keys@.to_set().contains(x));
                }
            }
            vstd::set_lib::lemma_subset_equality(self.components@.dom(), other.components@.dom());
        }
        true
    }
}

impl vstd::std_specs::cmp::PartialEqSpecImpl for Area {
    open spec fn obeys_eq_spec() -> bool {
        true
    }

    open spec fn eq_spec(&self, other: &Area) -> bool {
        self@.id() == other@.id() && self@.children().dom() == other@.children().dom()
    }
}

impl Eq for Area {

}

/// Every area in `c`, at any depth, stores each component under that
/// component's id and directly holds everything its own areas hold.
pub open spec fn is_flattened(c: ComponentModel) -> bool
    decreases c,
{
    match c {
        ComponentModel::Token { .. } => true,
        ComponentModel::Area { children, .. } => forall|k: usize| #[trigger]
            children.contains_key(k) ==> {
                &&& children[k].id() == k
                &&& children[k].children().dom().subset_of(children.dom())
                &&& is_flattened(children[k])
            },
    }
}

/// `d` is reached from `c` by stepping `depth` times into an area's lookup map.
pub open spec fn descends_from(d: ComponentModel, c: ComponentModel, depth: nat) -> bool
    decreases depth,
{
    if depth == 0 {
        d == c
    } else {
        exists|k: usize| #[trigger]
            c.children().contains_key(k) && descends_from(
                d,
                c.children()[k],
                (depth - 1) as nat,
            )
    }
}

proof fn lemma_descendants_held_directly(c: ComponentModel, d: ComponentModel, depth: nat)
    requires
        is_flattened(c),
        descends_from(d, c, depth),
        depth >= 1,
    ensures
        c.children().contains_key(d.id()),
    decreases depth,
{
    let k = choose|k: usize| #[trigger]
        c.children().contains_key(k) && descends_from(d, c.children()[k], (depth - 1) as nat);
    let x = c.children()[k];
    if depth > 1 {
        lemma_descendants_held_directly(x, d, (depth - 1) as nat);
    }
}

/// Putting a flattened component into a flattened area leaves the area flattened.
pub proof fn lemma_put_keeps_flattened(area: ComponentModel, c: ComponentModel)
    requires
        area is Area,
        is_flattened(area),
        is_flattened(c),
    ensures
        is_flattened(
            ComponentModel::Area { header: area.header(), children: put_spec(area.children(), c) },
        ),
{
    let m = put_spec(area.children(), c);
    assert forall|k: usize| #[trigger] m.contains_key(k) implies {
        &&& m[k].id() == k
        &&& m[k].children().dom().subset_of(m.dom())
        &&& is_flattened(m[k])
    } by {
        if k != c.id() && c.children().contains_key(k) {
            assert(c.children()[k].children().dom().subset_of(c.children().dom()));
        }
    }
}

/// Once a flattened component `c` is put into an area, `c` and everything it
/// holds, at any depth of nesting, can be looked up in the area by id; once the
/// area is cleared, none of them can.
pub proof fn lemma_containment_closure(
    area: ComponentModel,
    c: ComponentModel,
    d: ComponentModel,
    depth: nat,
)
    requires
        is_flattened(c),
        descends_from(d, c, depth),
    ensures
        put_spec(area.children(), c).contains_key(c.id()),
        put_spec(area.children(), c).contains_key(d.id()),
        !(ComponentModel::Area {
            header: area.header(),
            children: Map::<usize, ComponentModel>::empty(),
        }).children().contains_key(d.id()),
{
    if depth >= 1 {
        lemma_descendants_held_directly(c, d, depth);
    }
}

} // verus!
