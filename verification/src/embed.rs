//! A Discord embed as plain values: what the library decides a message says.
//! Building the real embed, and stamping it with the current time, is left to
//! the code that sends it.
use vstd::prelude::*;

verus! {

/// One titled field of an embed.
pub struct EmbedField {
    pub name: String,
    pub value: String,
    pub inline: bool,
}

/// The parts of an embed the bot fills in itself.
pub struct Embed {
    pub title: Option<String>,
    pub color: (u8, u8, u8),
    pub description: Option<String>,
    pub fields: Vec<EmbedField>,
    /// An `attachment://` URL, when the embed shows an uploaded image.
    pub image: Option<String>,
    pub footer: Option<String>,
}

/// [`Embed`] with its text as characters.
pub struct EmbedShape {
    pub title: Option<Seq<char>>,
    pub color: (u8, u8, u8),
    pub description: Option<Seq<char>>,
    pub fields: Seq<(Seq<char>, Seq<char>, bool)>,
    pub image: Option<Seq<char>>,
    pub footer: Option<Seq<char>>,
}

pub open spec fn text_view(text: Option<String>) -> Option<Seq<char>> {
    match text {
        Some(t) => Some(t@),
        None => None,
    }
}

pub open spec fn field_view(field: EmbedField) -> (Seq<char>, Seq<char>, bool) {
    (field.name@, field.value@, field.inline)
}

pub open spec fn field_views(fields: Seq<EmbedField>) -> Seq<(Seq<char>, Seq<char>, bool)> {
    fields.map_values(|f: EmbedField| field_view(f))
}

impl View for Embed {
    type V = EmbedShape;

    open spec fn view(&self) -> EmbedShape {
        EmbedShape {
            title: text_view(self.title),
            color: self.color,
            description: text_view(self.description),
            fields: field_views(self.fields@),
            image: text_view(self.image),
            footer: text_view(self.footer),
        }
    }
}

/// Appends a field.
pub fn push_field(fields: &mut Vec<EmbedField>, name: String, value: String, inline: bool)
    ensures
        field_views(final(fields)@) == field_views(old(fields)@).push((name@, value@, inline)),
{
    let ghost before = fields@;
    fields.push(EmbedField { name, value, inline });
    assert(field_views(fields@) =~= field_views(before).push((name@, value@, inline)));
}

/// An embed with a title, a colour, a description and a footer, and nothing
/// else.
pub open spec fn plain_embed(
    title: Seq<char>,
    color: (u8, u8, u8),
    description: Seq<char>,
    footer: Seq<char>,
) -> EmbedShape {
    EmbedShape {
        title: Some(title),
        color,
        description: Some(description),
        fields: Seq::empty(),
        image: None,
        footer: Some(footer),
    }
}

/// Builds a [`plain_embed`].
pub fn plain(title: String, color: (u8, u8, u8), description: String, footer: String) -> (embed:
    Embed)
    ensures
        embed@ == plain_embed(title@, color, description@, footer@),
{
    let embed = Embed {
        title: Some(title),
        color,
        description: Some(description),
        fields: Vec::new(),
        image: None,
        footer: Some(footer),
    };
    assert(embed@.fields =~= Seq::<(Seq<char>, Seq<char>, bool)>::empty());
    embed
}

} // verus!
