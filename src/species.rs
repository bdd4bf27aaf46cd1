use vstd::prelude::*;

use crate::catalog::{copy_texts, lookup, text_is, Catalog, Language, LocalizedText};

verus! {

/// The message of every failed species lookup.
pub const SPECIES_NOT_FOUND_MESSAGE: &'static str = "Requested Pokémon not available";

/// The key of the one species in the shipped catalog.
pub const PIKACHU: &'static str = "pikachu";

/// English flavor text of Pikachu.
pub const PIKACHU_ENGLISH: &'static str =
    "When several of these Pokémon gather, their electricity could build and cause lightning storms.";

/// Spanish flavor text of Pikachu.
pub const PIKACHU_SPANISH: &'static str =
    "Cuando varios de estos Pokémon se juntan, su energía puede causar fuertes tormentas.";

/// Italian flavor text of Pikachu.
pub const PIKACHU_ITALIAN: &'static str =
    "Quando vari Pokémon di questo tipo si radunano, la loro energia può causare forti tempeste.";

/// Japanese flavor text of Pikachu.
pub const PIKACHU_JAPANESE: &'static str =
    "ほっぺたの りょうがわに ちいさい でんきぶくろを もつ。ピンチのときに ほうでんする。";

/// A request for one species of the catalog.
#[derive(Debug)]
pub struct GetPokemonSpeciesInput {
    pub name: String,
}

/// A found species: the requested name and its flavor texts.
#[derive(Debug)]
pub struct GetPokemonSpeciesOutput {
    pub name: String,
    pub local_description: Vec<LocalizedText>,
}

/// The requested species is not in the catalog.
#[derive(Debug)]
pub struct PokemonNotFound {
    pub message: String,
}

/// The shared, read-only state of the species service.
#[derive(Debug)]
pub struct State {
    pub(crate) pokemons_translations: Catalog,
}

impl View for State {
    type V = Map<Seq<char>, Seq<LocalizedText>>;

    closed spec fn view(&self) -> Map<Seq<char>, Seq<LocalizedText>> {
        self.pokemons_translations@
    }
}

impl State {
    /// Well-formedness: the catalog has unique keys.
    pub closed spec fn wf(&self) -> bool {
        self.pokemons_translations.wf()
    }

    /// The species catalog.
    pub fn pokemons_translations(&self) -> (r: &Catalog)
        ensures
            r@ == self@,
            self.wf() ==> r.wf(),
    {
        &self.pokemons_translations
    }
}

/// The shipped species catalog: Pikachu, with flavor texts in four languages.
pub open spec fn shipped_species(m: Map<Seq<char>, Seq<LocalizedText>>) -> bool {
    &&& m.dom() == set![PIKACHU@]
    &&& m[PIKACHU@].len() == 4
    &&& text_is(m[PIKACHU@][0], Language::English, PIKACHU_ENGLISH@)
    &&& text_is(m[PIKACHU@][1], Language::Spanish, PIKACHU_SPANISH@)
    &&& text_is(m[PIKACHU@][2], Language::Italian, PIKACHU_ITALIAN@)
    &&& text_is(m[PIKACHU@][3], Language::Japanese, PIKACHU_JAPANESE@)
}

impl Default for State {
    fn default() -> (r: State)
        ensures
            r.wf(),
            shipped_species(r@),
    {
        let mut pokemons_translations = Catalog::new();
        let mut pikachu: Vec<LocalizedText> = Vec::new();
        pikachu.push(
            LocalizedText { language: Language::English, text: PIKACHU_ENGLISH.to_owned() },
        );
        pikachu.push(
            LocalizedText { language: Language::Spanish, text: PIKACHU_SPANISH.to_owned() },
        );
        pikachu.push(
            LocalizedText { language: Language::Italian, text: PIKACHU_ITALIAN.to_owned() },
        );
        pikachu.push(
            LocalizedText { language: Language::Japanese, text: PIKACHU_JAPANESE.to_owned() },
        );
        pokemons_translations.insert(PIKACHU.to_owned(), pikachu);
        let r = State { pokemons_translations };
        assert(r@.dom() =~= set![PIKACHU@]);
        r
    }
}

/// What a species lookup answers, as plain values: the echoed name and the
/// flavor texts, or the error message.
pub open spec fn species_response(m: Map<Seq<char>, Seq<LocalizedText>>, name: Seq<char>) -> Result<
    (Seq<char>, Seq<LocalizedText>),
    Seq<char>,
> {
    match lookup(m, name) {
        Some(texts) => Ok((name, texts)),
        None => Err(SPECIES_NOT_FOUND_MESSAGE@),
    }
}

/// The plain values that a species reply carries.
pub open spec fn species_reply_view(r: Result<GetPokemonSpeciesOutput, PokemonNotFound>) -> Result<
    (Seq<char>, Seq<LocalizedText>),
    Seq<char>,
> {
    match r {
        Ok(out) => Ok((out.name@, out.local_description@)),
        Err(e) => Err(e.message@),
    }
}

/// Retrieves the flavor texts of a Pokémon species.
pub fn get_pokemon_species(input: GetPokemonSpeciesInput, state: &State) -> (r: Result<
    GetPokemonSpeciesOutput,
    PokemonNotFound,
>)
    requires
        state.wf(),
    ensures
        species_reply_view(r) == species_response(state@, input.name@),
        r matches Ok(out) ==> out.name == input.name,
{
    match state.pokemons_translations.get(&input.name) {
        Some(texts) => Ok(
            GetPokemonSpeciesOutput { name: input.name, local_description: copy_texts(texts) },
        ),
        None => Err(PokemonNotFound { message: SPECIES_NOT_FOUND_MESSAGE.to_owned() }),
    }
}

/// Looking up the same species twice in the same state gives the same reply.
pub proof fn lemma_get_pokemon_species_idempotent(
    state: &State,
    name: Seq<char>,
    first: Result<GetPokemonSpeciesOutput, PokemonNotFound>,
    second: Result<GetPokemonSpeciesOutput, PokemonNotFound>,
)
    requires
        state.wf(),
        species_reply_view(first) == species_response(state@, name),
        species_reply_view(second) == species_response(state@, name),
    ensures
        species_reply_view(first) == species_reply_view(second),
{
}

} // verus!
