use vstd::prelude::*;

verus! {

/// Which analytics provider the site embeds, with the provider's identifier.
#[derive(Debug, Clone)]
pub enum AnalyticsConfig {
    Google { tracking_id: String },
    Plausible { domain: String },
    Fathom { site: String },
    Umami { website: String },
}

/// Social-media metadata for the generated pages (complete version).
#[derive(Debug, Clone)]
pub struct SocialConfig {
    /// A preview image for link sharing.
    pub image: Option<String>,
    /// The preview image's alt text.
    pub image_alt: Option<String>,
    /// A Twitter account to credit.
    pub twitter_account: Option<String>,
}

/// Social-media metadata (partial version used by the configuration file).
#[derive(Debug, Clone)]
pub struct SocialLayer {
    /// A preview image for link sharing.
    pub image: Option<String>,
    /// The preview image's alt text.
    pub image_alt: Option<String>,
    /// A Twitter account to credit.
    pub twitter_account: Option<String>,
}

/// Marketing config (complete version).
#[derive(Debug)]
pub struct MarketingConfig {
    /// Analytics
    pub analytics: Option<AnalyticsConfig>,
    /// Social media
    pub social: SocialConfig,
}

/// Marketing config (partial version used by the configuration file).
#[derive(Debug)]
pub struct MarketingLayer {
    /// Analytics
    pub analytics: Option<AnalyticsConfig>,
    /// Social media
    pub social: Option<SocialLayer>,
}

impl Default for MarketingConfig {
    /// The defaults before any configuration layer applies: no analytics and
    /// no social metadata.
    fn default() -> (r: MarketingConfig)
        ensures
            r.analytics is None,
            r.social.image is None,
            r.social.image_alt is None,
            r.social.twitter_account is None,
    {
        MarketingConfig {
            analytics: None,
            social: SocialConfig { image: None, image_alt: None, twitter_account: None },
        }
    }
}

impl SocialConfig {
    /// Applies a partial social layer: each field the layer sets clobbers the
    /// current value; absent fields keep it.
    pub fn apply_val_layer(&mut self, layer: Option<SocialLayer>)
        ensures
            final(self).image == (match layer {
                Some(l) if l.image is Some => l.image,
                _ => old(self).image,
            }),
            final(self).image_alt == (match layer {
                Some(l) if l.image_alt is Some => l.image_alt,
                _ => old(self).image_alt,
            }),
            final(self).twitter_account == (match layer {
                Some(l) if l.twitter_account is Some => l.twitter_account,
                _ => old(self).twitter_account,
            }),
    {
        if let Some(l) = layer {
            if l.image.is_some() {
                self.image = l.image;
            }
            if l.image_alt.is_some() {
                self.image_alt = l.image_alt;
            }
            if l.twitter_account.is_some() {
                self.twitter_account = l.twitter_account;
            }
        }
    }
}

impl MarketingConfig {
    /// Applies a configuration layer: a set analytics value clobbers the old
    /// one no matter its variant, and the social fields layer field by field.
    pub fn apply_layer(&mut self, layer: MarketingLayer)
        ensures
            final(self).analytics == (if layer.analytics is Some {
                layer.analytics
            } else {
                old(self).analytics
            }),
            final(self).social.image == (match layer.social {
                Some(l) if l.image is Some => l.image,
                _ => old(self).social.image,
            }),
            final(self).social.image_alt == (match layer.social {
                Some(l) if l.image_alt is Some => l.image_alt,
                _ => old(self).social.image_alt,
            }),
            final(self).social.twitter_account == (match layer.social {
                Some(l) if l.twitter_account is Some => l.twitter_account,
                _ => old(self).social.twitter_account,
            }),
    {
        let MarketingLayer { analytics, social } = layer;
        if let Some(analytics) = analytics {
            self.analytics = Some(analytics);
        }
        self.social.apply_val_layer(social);
    }
}

} // verus!
