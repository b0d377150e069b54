#EXTM3U
#EXT-X-VERSION:7
#EXT-X-TARGETDURATION:4
#EXT-X-MEDIA-SEQUENCE:0
#EXT-X-PLAYLIST-TYPE:EVENT
#EXT-X-MAP:URI="init_0001.mp4"
#EXTINF:4.000000,
segment_0001_00000.m4s
#EXTINF:4.000000,
segment_0001_00001.m4s
#EXTINF:3.500000,
segment_0001_00002.m4s
