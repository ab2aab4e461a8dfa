//! Interests and recommendations.
use crate::frame::{
    item, read_list, read_matches, sp_list, sp_str, sp_u32, views, ParseBytes, Read, Reader,
};
use crate::frame::{
    holds_at, item_roundtrips, lemma_holds_part, lemma_list_at, lemma_str_at,
    lemma_string_roundtrips, ser_list, ser_str, str_bytes,
};
use crate::SlskError;
use vstd::prelude::*;

verus! {

/// Recommended and unrecommended items.
#[derive(Debug)]
pub struct Recommendations {
    pub recommendations: Vec<Recommendation>,
    pub unrecommendations: Vec<Recommendation>,
}

impl View for Recommendations {
    type V = (Seq<(Seq<char>, u32)>, Seq<(Seq<char>, u32)>);

    open spec fn view(&self) -> Self::V {
        (views(self.recommendations@), views(self.unrecommendations@))
    }
}

impl ParseBytes for Recommendations {
    /// A list of recommendations, then a list of unrecommendations.
    open spec fn spec_parse(s: Seq<u8>, p: int) -> Read<Self::V> {
        match sp_list(s, p, item::<Recommendation>()) {
            Err(e) => Err(e),
            Ok((recommendations, p)) => match sp_list(s, p, item::<Recommendation>()) {
                Err(e) => Err(e),
                Ok((unrecommendations, p)) => Ok(((recommendations, unrecommendations), p)),
            },
        }
    }

    fn parse(src: &mut Reader) -> (res: Result<Self, SlskError>) {
        let recommendations = read_list::<Recommendation>(src)?;
        let unrecommendations = read_list::<Recommendation>(src)?;
        Ok(Recommendations { recommendations, unrecommendations })
    }
}

/// Recommendations related to an item.
#[derive(Debug)]
pub struct ItemRecommendations {
    pub item: String,
    pub recommendations: Vec<Recommendation>,
}

impl View for ItemRecommendations {
    type V = (Seq<char>, Seq<(Seq<char>, u32)>);

    open spec fn view(&self) -> Self::V {
        (self.item@, views(self.recommendations@))
    }
}

impl ParseBytes for ItemRecommendations {
    /// The item, then a list of recommendations.
    open spec fn spec_parse(s: Seq<u8>, p: int) -> Read<Self::V> {
        match sp_str(s, p) {
            Err(e) => Err(e),
            Ok((item_name, p)) => match sp_list(s, p, item::<Recommendation>()) {
                Err(e) => Err(e),
                Ok((recommendations, p)) => Ok(((item_name, recommendations), p)),
            },
        }
    }

    fn parse(src: &mut Reader) -> (res: Result<Self, SlskError>) {
        let item = src.read_string()?;
        let recommendations = read_list::<Recommendation>(src)?;
        Ok(ItemRecommendations { item, recommendations })
    }
}

/// A recommended item and its score.
#[derive(Debug)]
pub struct Recommendation {
    pub content: String,
    pub note: u32,
}

impl View for Recommendation {
    type V = (Seq<char>, u32);

    open spec fn view(&self) -> Self::V {
        (self.content@, self.note)
    }
}

impl ParseBytes for Recommendation {
    open spec fn spec_parse(s: Seq<u8>, p: int) -> Read<Self::V> {
        match sp_str(s, p) {
            Err(e) => Err(e),
            Ok((content, p)) => match sp_u32(s, p) {
                Err(e) => Err(e),
                Ok((note, p)) => Ok(((content, note), p)),
            },
        }
    }

    fn parse(src: &mut Reader) -> (res: Result<Self, SlskError>) {
        let content = src.read_string()?;
        let note = src.read_u32()?;
        Ok(Recommendation { content, note })
    }
}

/// Liked and hated interests of a user.
#[derive(Debug)]
pub struct Interests {
    pub username: String,
    pub liked: Vec<String>,
    pub hated: Vec<String>,
}

impl View for Interests {
    type V = (Seq<char>, Seq<Seq<char>>, Seq<Seq<char>>);

    open spec fn view(&self) -> Self::V {
        (self.username@, views(self.liked@), views(self.hated@))
    }
}

impl ParseBytes for Interests {
    /// The user name, the list of liked items, the list of hated items.
    open spec fn spec_parse(s: Seq<u8>, p: int) -> Read<Self::V> {
        match sp_str(s, p) {
            Err(e) => Err(e),
            Ok((username, p)) => match sp_list(s, p, item::<String>()) {
                Err(e) => Err(e),
                Ok((liked, p)) => match sp_list(s, p, item::<String>()) {
                    Err(e) => Err(e),
                    Ok((hated, p)) => Ok(((username, liked, hated), p)),
                },
            },
        }
    }

    fn parse(src: &mut Reader) -> (res: Result<Self, SlskError>) {
        let username = src.read_string()?;
        let liked = read_list::<String>(src)?;
        let hated = read_list::<String>(src)?;
        Ok(Interests { username, liked, hated })
    }
}

/// A user's interests on the wire: the user name, then the list of things
/// liked, then the list of things hated.
pub proof fn lemma_interests_layout(
    s: Seq<u8>,
    p: int,
    username: Seq<char>,
    liked: Seq<Seq<char>>,
    hated: Seq<Seq<char>>,
)
    requires
        str_bytes(username) <= u32::MAX,
        liked.len() <= u32::MAX,
        hated.len() <= u32::MAX,
        forall|i: int| 0 <= i < liked.len() ==> str_bytes(#[trigger] liked[i]) <= u32::MAX,
        forall|i: int| 0 <= i < hated.len() ==> str_bytes(#[trigger] hated[i]) <= u32::MAX,
        holds_at(s, p, ser_str(username) + ser_list::<String>(liked) + ser_list::<String>(hated)),
    ensures
        Interests::spec_parse(s, p) == Ok::<
            ((Seq<char>, Seq<Seq<char>>, Seq<Seq<char>>), int),
            SlskError,
        >(
            (
                (username, liked, hated),
                p + (ser_str(username) + ser_list::<String>(liked) + ser_list::<String>(
                    hated,
                )).len(),
            ),
        ),
{
    let a = ser_str(username);
    let b = ser_list::<String>(liked);
    let c = ser_list::<String>(hated);
    let w = a + b + c;
    lemma_holds_part(s, p, w, 0, a);
    lemma_str_at(s, p, username);
    lemma_holds_part(s, p, w, a.len() as int, b);
    assert forall|i: int| 0 <= i < liked.len() implies item_roundtrips::<String>(
        #[trigger] liked[i],
    ) by {
        lemma_string_roundtrips(liked[i]);
    }
    lemma_list_at::<String>(s, p + a.len(), liked);
    lemma_holds_part(s, p, w, (a.len() + b.len()) as int, c);
    assert forall|i: int| 0 <= i < hated.len() implies item_roundtrips::<String>(
        #[trigger] hated[i],
    ) by {
        lemma_string_roundtrips(hated[i]);
    }
    lemma_list_at::<String>(s, p + a.len() + b.len(), hated);
}

} // verus!
