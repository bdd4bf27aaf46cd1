use vstd::prelude::*;

use crate::catalog::{copy_texts, lookup, text_is, Catalog, Language, LocalizedText};

verus! {

/// The message of every failed planet lookup.
pub const PLANET_NOT_FOUND_MESSAGE: &'static str = "Requested solar system body not found.";

/// The key of the one planet in the shipped catalog.
pub const EARTH: &'static str = "Earth";

/// English description of the Earth.
pub const EARTH_ENGLISH: &'static str = "Earth is the third planet from the Sun and the only place known in the universe where life has originated and found habitability.";

/// Italian description of the Earth.
pub const EARTH_ITALIAN: &'static str = "La Terra è il terzo pianeta in ordine di distanza dal Sole e il più grande dei pianeti terrestri del sistema solare, sia per massa sia per diametro.";

/// Spanish description of the Earth.
pub const EARTH_SPANISH: &'static str = "La Tierra (del latín Terra,17​ deidad romana equivalente a Gea, diosa griega de la feminidad y la fecundidad) es un planeta del sistema solar que gira alrededor de su estrella —el Sol— en la tercera órbita más interna. ";

/// Japanese description of the Earth.
pub const EARTH_JAPANESE: &'static str = "地球（ちきゅう、羅: Terra、英: The Earth）は、太陽系の惑星の1つ[5]。太陽から3番目に近いため、太陽系第３惑星と言われる。表面に水、空気中に酸素を大量に蓄え、人類を含む多種多様な生命体が生存することを特徴とする惑星である[6]。";

/// A request for one planet of the catalog.
#[derive(Debug)]
pub struct GetPlanetInput {
    pub name: String,
}

/// A found planet: the requested name and its descriptions.
#[derive(Debug)]
pub struct GetPlanetOutput {
    pub name: String,
    pub descriptions: Vec<LocalizedText>,
}

/// The requested planet is not in the catalog.
#[derive(Debug)]
pub struct NotFound {
    pub message: String,
}

/// The shared, read-only state of the planet service.
#[derive(Debug)]
pub struct State {
    pub(crate) descriptions: Catalog,
}

impl View for State {
    type V = Map<Seq<char>, Seq<LocalizedText>>;

    closed spec fn view(&self) -> Map<Seq<char>, Seq<LocalizedText>> {
        self.descriptions@
    }
}

impl State {
    /// Well-formedness: the catalog has unique keys.
    pub closed spec fn wf(&self) -> bool {
        self.descriptions.wf()
    }

    /// The planet catalog.
    pub fn descriptions(&self) -> (r: &Catalog)
        ensures
            r@ == self@,
            self.wf() ==> r.wf(),
    {
        &self.descriptions
    }
}

/// The shipped planet catalog: the Earth, described in four languages.
pub open spec fn shipped_planets(m: Map<Seq<char>, Seq<LocalizedText>>) -> bool {
    &&& m.dom() == set![EARTH@]
    &&& m[EARTH@].len() == 4
    &&& text_is(m[EARTH@][0], Language::English, EARTH_ENGLISH@)
    &&& text_is(m[EARTH@][1], Language::Italian, EARTH_ITALIAN@)
    &&& text_is(m[EARTH@][2], Language::Spanish, EARTH_SPANISH@)
    &&& text_is(m[EARTH@][3], Language::Japanese, EARTH_JAPANESE@)
}

impl Default for State {
    fn default() -> (r: State)
        ensures
            r.wf(),
            shipped_planets(r@),
    {
        let mut descriptions = Catalog::new();
        let mut earth: Vec<LocalizedText> = Vec::new();
        earth.push(LocalizedText { language: Language::English, text: EARTH_ENGLISH.to_owned() });
        earth.push(LocalizedText { language: Language::Italian, text: EARTH_ITALIAN.to_owned() });
        earth.push(LocalizedText { language: Language::Spanish, text: EARTH_SPANISH.to_owned() });
        earth.push(
            LocalizedText { language: Language::Japanese, text: EARTH_JAPANESE.to_owned() },
        );
        descriptions.insert(EARTH.to_owned(), earth);
        let r = State { descriptions };
        assert(r@.dom() =~= set![EARTH@]);
        r
    }
}

/// What a planet lookup answers, as plain values: the echoed name and the
/// descriptions, or the error message.
pub open spec fn planet_response(m: Map<Seq<char>, Seq<LocalizedText>>, name: Seq<char>) -> Result<
    (Seq<char>, Seq<LocalizedText>),
    Seq<char>,
> {
    match lookup(m, name) {
        Some(texts) => Ok((name, texts)),
        None => Err(PLANET_NOT_FOUND_MESSAGE@),
    }
}

/// The plain values that a planet reply carries.
pub open spec fn planet_reply_view(r: Result<GetPlanetOutput, NotFound>) -> Result<
    (Seq<char>, Seq<LocalizedText>),
    Seq<char>,
> {
    match r {
        Ok(out) => Ok((out.name@, out.descriptions@)),
        Err(e) => Err(e.message@),
    }
}

/// Retrieves the descriptions of a planet in the catalog.
pub fn get_planet(input: GetPlanetInput, state: &State) -> (r: Result<GetPlanetOutput, NotFound>)
    requires
        state.wf(),
    ensures
        planet_reply_view(r) == planet_response(state@, input.name@),
        r matches Ok(out) ==> out.name == input.name,
{
    match state.descriptions.get(&input.name) {
        Some(texts) => Ok(GetPlanetOutput { name: input.name, descriptions: copy_texts(texts) }),
        None => Err(NotFound { message: PLANET_NOT_FOUND_MESSAGE.to_owned() }),
    }
}

/// Looking up the same name twice in the same state gives the same reply.
pub proof fn lemma_get_planet_idempotent(
    state: &State,
    name: Seq<char>,
    first: Result<GetPlanetOutput, NotFound>,
    second: Result<GetPlanetOutput, NotFound>,
)
    requires
        state.wf(),
        planet_reply_view(first) == planet_response(state@, name),
        planet_reply_view(second) == planet_response(state@, name),
    ensures
        planet_reply_view(first) == planet_reply_view(second),
{
}

} // verus!
