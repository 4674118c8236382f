//! Data model shared between the post-creation flow and the image store.

use vstd::prelude::*;

verus! {

/// Blog post creation data sent by the client.
#[derive(Debug, Clone)]
pub struct CreateBlogPostParams {
    /// The text of the blog post.
    pub text: String,
    /// The username of the author of the blog post.
    pub username: String,
    /// The bytes of the file attached to the blog post, if any.
    /// These bytes have not yet been validated to ensure they are an image.
    pub image: Option<Vec<u8>>,
    /// The URL of the author's avatar, if any.
    /// This URL has not yet been validated to ensure it is an image.
    pub avatar_url: Option<String>,
}

impl CreateBlogPostParams {
    /// A creation request is acceptable exactly when both its text and its
    /// username are non-empty; the error names the first field that is empty.
    pub fn validate(&self) -> (r: Result<(), &'static str>)
        ensures
            r is Ok <==> self.text@.len() > 0 && self.username@.len() > 0,
            self.text@.len() == 0 ==> (r matches Err(m) && m@ == "The blog post text cannot be empty"@),
            self.text@.len() > 0 && self.username@.len() == 0 ==> (r matches Err(m)
                && m@ == "The username cannot be empty"@),
    {
        if self.text.as_str().is_empty() {
            return Err("The blog post text cannot be empty");
        }
        if self.username.as_str().is_empty() {
            return Err("The username cannot be empty");
        }
        Ok(())
    }
}

impl Default for CreateBlogPostParams {
    /// An empty creation request: no text, no username, no image, no avatar.
    fn default() -> (r: Self)
        ensures
            r.text@.len() == 0,
            r.username@.len() == 0,
            r.image is None,
            r.avatar_url is None,
    {
        CreateBlogPostParams {
            text: String::new(),
            username: String::new(),
            image: None,
            avatar_url: None,
        }
    }
}

/// The file-system name of a blog post image.
/// This is a newtype around a `String`, which is the UUID of the image.
/// The UUID is persisted by the caller and later used to load the image
/// from the file system.
#[derive(Debug, Clone, PartialEq)]
pub struct PostImagePath(pub String);

/// The file-system name of an avatar image.
/// This is a newtype around a `String`, which is the UUID of the image.
/// The UUID is persisted by the caller and later used to load the image
/// from the file system.
#[derive(Debug, Clone, PartialEq)]
pub struct AvatarImagePath(pub String);

impl View for PostImagePath {
    type V = Seq<char>;

    open spec fn view(&self) -> Seq<char> {
        self.0@
    }
}

impl View for AvatarImagePath {
    type V = Seq<char>;

    open spec fn view(&self) -> Seq<char> {
        self.0@
    }
}

} // verus!
